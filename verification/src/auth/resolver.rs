//! Identity resolution: the stable internal identifier of an external
//! subject, provisioned on the subject's first use.
//!
//! The resolver holds the decisions and leaves the storage to its caller: it
//! says which request is pending, takes the storage's answer and either
//! finishes or goes on to the next request. An insert that a concurrent
//! request has won is never an error: the winner's row is read back. A
//! resolution is over after three answers at most.

use vstd::prelude::*;

use crate::auth::error::StorageError;
use crate::identifier::fresh_identifier;
use crate::identifier::IDENTIFIER_LENGTH;

verus! {

/// What the resolver asks of the storage.
pub enum StorageRequest {
    /// The identifier in the row of a subject claim.
    Lookup { claim: String },
    /// A new row, to be refused where the claim already has one.
    Insert { id: String, claim: String },
}

pub enum StorageRequestView {
    Lookup { claim: Seq<char> },
    Insert { id: Seq<char>, claim: Seq<char> },
}

impl View for StorageRequest {
    type V = StorageRequestView;

    open spec fn view(&self) -> StorageRequestView {
        match self {
            StorageRequest::Lookup { claim } => StorageRequestView::Lookup { claim: claim@ },
            StorageRequest::Insert { id, claim } => StorageRequestView::Insert {
                id: id@,
                claim: claim@,
            },
        }
    }
}

/// What the storage answers.
pub enum StorageAnswer {
    /// The claim has a row, with this identifier.
    Found { id: String },
    /// The claim has no row.
    NotFound,
    /// The row was inserted.
    Inserted,
    /// The insert was refused: the claim already has a row.
    Conflict,
    /// The storage failed, and changed nothing.
    Failed,
}

pub enum StorageAnswerView {
    Found { id: Seq<char> },
    NotFound,
    Inserted,
    Conflict,
    Failed,
}

impl View for StorageAnswer {
    type V = StorageAnswerView;

    open spec fn view(&self) -> StorageAnswerView {
        match self {
            StorageAnswer::Found { id } => StorageAnswerView::Found { id: id@ },
            StorageAnswer::NotFound => StorageAnswerView::NotFound,
            StorageAnswer::Inserted => StorageAnswerView::Inserted,
            StorageAnswer::Conflict => StorageAnswerView::Conflict,
            StorageAnswer::Failed => StorageAnswerView::Failed,
        }
    }
}

/// A resolution under way, by the request that is pending.
pub enum Resolver {
    /// The first lookup of the claim.
    Looking { claim: String },
    /// The insert of a new identifier for the claim.
    Inserting { claim: String, id: String },
    /// The lookup of the row that won against the insert.
    Rereading { claim: String },
}

pub enum ResolverView {
    Looking { claim: Seq<char> },
    Inserting { claim: Seq<char>, id: Seq<char> },
    Rereading { claim: Seq<char> },
}

impl View for Resolver {
    type V = ResolverView;

    open spec fn view(&self) -> ResolverView {
        match self {
            Resolver::Looking { claim } => ResolverView::Looking { claim: claim@ },
            Resolver::Inserting { claim, id } => ResolverView::Inserting { claim: claim@, id: id@ },
            Resolver::Rereading { claim } => ResolverView::Rereading { claim: claim@ },
        }
    }
}

/// Where a resolution stands after an answer.
pub enum Step {
    /// Another request is pending.
    Next(Resolver),
    /// The resolution is over.
    Done(Result<String, StorageError>),
}

pub enum StepView {
    Next(ResolverView),
    Done(Result<Seq<char>, StorageError>),
}

impl View for Step {
    type V = StepView;

    open spec fn view(&self) -> StepView {
        match self {
            Step::Next(resolver) => StepView::Next(resolver@),
            Step::Done(Ok(id)) => StepView::Done(Ok(id@)),
            Step::Done(Err(e)) => StepView::Done(Err(*e)),
        }
    }
}

impl ResolverView {
    /// The subject claim that is being resolved.
    pub open spec fn claim(self) -> Seq<char> {
        match self {
            ResolverView::Looking { claim } => claim,
            ResolverView::Inserting { claim, .. } => claim,
            ResolverView::Rereading { claim } => claim,
        }
    }

    /// The request that is pending.
    pub open spec fn pending(self) -> StorageRequestView {
        match self {
            ResolverView::Looking { claim } => StorageRequestView::Lookup { claim },
            ResolverView::Inserting { claim, id } => StorageRequestView::Insert { id, claim },
            ResolverView::Rereading { claim } => StorageRequestView::Lookup { claim },
        }
    }

    /// How many answers the resolution can take at most before it is over:
    /// three from its start, and one fewer with every answer.
    pub open spec fn remaining(self) -> nat {
        match self {
            ResolverView::Looking { .. } => 3,
            ResolverView::Inserting { .. } => 2,
            ResolverView::Rereading { .. } => 1,
        }
    }

    /// Whether the answer makes the resolver offer a new identifier.
    pub open spec fn provisions(self, answer: StorageAnswerView) -> bool {
        self is Looking && answer is NotFound
    }

    /// Where the resolution stands after the answer to its pending request.
    /// `candidate` is the new identifier that is offered where the first
    /// lookup finds no row.
    pub open spec fn step(self, answer: StorageAnswerView, candidate: Seq<char>) -> StepView {
        match self {
            ResolverView::Looking { claim } => match answer {
                StorageAnswerView::Found { id } => StepView::Done(Ok(id)),
                StorageAnswerView::NotFound => StepView::Next(
                    ResolverView::Inserting { claim, id: candidate },
                ),
                StorageAnswerView::Failed => StepView::Done(Err(StorageError::Unavailable)),
                _ => StepView::Done(Err(StorageError::UnexpectedAnswer)),
            },
            ResolverView::Inserting { claim, id } => match answer {
                StorageAnswerView::Inserted => StepView::Done(Ok(id)),
                StorageAnswerView::Conflict => StepView::Next(ResolverView::Rereading { claim }),
                StorageAnswerView::Failed => StepView::Done(Err(StorageError::Unavailable)),
                _ => StepView::Done(Err(StorageError::UnexpectedAnswer)),
            },
            ResolverView::Rereading { claim } => match answer {
                StorageAnswerView::Found { id } => StepView::Done(Ok(id)),
                StorageAnswerView::NotFound => StepView::Done(Err(StorageError::LostRow)),
                StorageAnswerView::Failed => StepView::Done(Err(StorageError::Unavailable)),
                _ => StepView::Done(Err(StorageError::UnexpectedAnswer)),
            },
        }
    }
}

impl Resolver {
    /// Starts the resolution of a subject claim with the lookup of its row.
    pub fn start(claim: String) -> (resolver: Resolver)
        ensures
            resolver@ == (ResolverView::Looking { claim: claim@ }),
    {
        Resolver::Looking { claim }
    }

    /// The request that is pending.
    pub fn request(&self) -> (request: StorageRequest)
        ensures
            request@ == self@.pending(),
    {
        match self {
            Resolver::Looking { claim } => StorageRequest::Lookup { claim: claim.clone() },
            Resolver::Inserting { claim, id } => StorageRequest::Insert {
                id: id.clone(),
                claim: claim.clone(),
            },
            Resolver::Rereading { claim } => StorageRequest::Lookup { claim: claim.clone() },
        }
    }

    /// Whether the answer makes the resolver offer a new identifier.
    pub fn provisions(&self, answer: &StorageAnswer) -> (r: bool)
        ensures
            r == self@.provisions(answer@),
    {
        match (self, answer) {
            (Resolver::Looking { .. }, StorageAnswer::NotFound) => true,
            _ => false,
        }
    }

    /// Takes the answer to the pending request, with the new identifier to
    /// offer where the first lookup found no row.
    pub fn advance(self, answer: StorageAnswer, candidate: String) -> (next: Step)
        ensures
            next@ == self@.step(answer@, candidate@),
            next matches Step::Next(resolver) ==> resolver@.remaining() < self@.remaining(),
    {
        match self {
            Resolver::Looking { claim } => match answer {
                StorageAnswer::Found { id } => Step::Done(Ok(id)),
                StorageAnswer::NotFound => Step::Next(Resolver::Inserting { claim, id: candidate }),
                StorageAnswer::Failed => Step::Done(Err(StorageError::Unavailable)),
                _ => Step::Done(Err(StorageError::UnexpectedAnswer)),
            },
            Resolver::Inserting { claim, id } => match answer {
                StorageAnswer::Inserted => Step::Done(Ok(id)),
                StorageAnswer::Conflict => Step::Next(Resolver::Rereading { claim }),
                StorageAnswer::Failed => Step::Done(Err(StorageError::Unavailable)),
                _ => Step::Done(Err(StorageError::UnexpectedAnswer)),
            },
            Resolver::Rereading { claim } => match answer {
                StorageAnswer::Found { id } => Step::Done(Ok(id)),
                StorageAnswer::NotFound => Step::Done(Err(StorageError::LostRow)),
                StorageAnswer::Failed => Step::Done(Err(StorageError::Unavailable)),
                _ => Step::Done(Err(StorageError::UnexpectedAnswer)),
            },
        }
    }

    /// Takes the answer to the pending request. Where the first lookup
    /// found no row, the identifier that is offered is a new random one of
    /// `IDENTIFIER_LENGTH` characters.
    pub fn answer(self, answer: StorageAnswer) -> (next: Step)
        ensures
            exists|candidate: Seq<char>|
                {
                    &&& self@.provisions(answer@) ==> candidate.len() == IDENTIFIER_LENGTH
                    &&& next@ == #[trigger] self@.step(answer@, candidate)
                },
            next matches Step::Next(resolver) ==> resolver@.remaining() < self@.remaining(),
    {
        let candidate = if self.provisions(&answer) {
            fresh_identifier()
        } else {
            String::new()
        };
        self.advance(answer, candidate)
    }
}

} // verus!
