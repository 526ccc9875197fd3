//! The shared challenges: sets of questions on a kind of media.

use vstd::prelude::*;
use vstd::string::*;

use crate::identifier::fresh_identifier;
use crate::identifier::IDENTIFIER_LENGTH;
use crate::text::borrowed_texts;
use crate::text::contains;
use crate::text::join;
use crate::text::joined;
use crate::text::occurs;
use crate::text::optional_text;

verus! {

/// One question of a challenge.
#[derive(Debug, Clone)]
pub struct Question {
    pub kind: String,
    pub question: String,
    pub id: String,
    pub number: i32,
    pub question_cluster_size: i32,
}

pub struct QuestionView {
    pub kind: Seq<char>,
    pub question: Seq<char>,
    pub id: Seq<char>,
    pub number: i32,
    pub question_cluster_size: i32,
}

impl View for Question {
    type V = QuestionView;

    open spec fn view(&self) -> QuestionView {
        QuestionView {
            kind: self.kind@,
            question: self.question@,
            id: self.id@,
            number: self.number,
            question_cluster_size: self.question_cluster_size,
        }
    }
}

/// The views of the questions of a list.
pub open spec fn question_views(questions: Seq<Question>) -> Seq<QuestionView> {
    questions.map_values(|question: Question| question@)
}

/// A challenge, as it is stored.
#[derive(Debug, Clone)]
pub struct SharedChallenge {
    pub id: String,
    pub name: String,
    pub status: String,
    pub target_media: String,
    pub questions: Vec<Question>,
    pub kind: String,
}

pub struct SharedChallengeView {
    pub id: Seq<char>,
    pub name: Seq<char>,
    pub status: Seq<char>,
    pub target_media: Seq<char>,
    pub questions: Seq<QuestionView>,
    pub kind: Seq<char>,
}

impl View for SharedChallenge {
    type V = SharedChallengeView;

    open spec fn view(&self) -> SharedChallengeView {
        SharedChallengeView {
            id: self.id@,
            name: self.name@,
            status: self.status@,
            target_media: self.target_media@,
            questions: question_views(self.questions@),
            kind: self.kind@,
        }
    }
}

/// A challenge, as a caller sends it.
#[derive(Debug, Clone)]
pub struct NewSharedChallenge {
    pub name: String,
    pub status: String,
    pub target_media: String,
    pub questions: Vec<Question>,
}

pub struct NewSharedChallengeView {
    pub name: Seq<char>,
    pub status: Seq<char>,
    pub target_media: Seq<char>,
    pub questions: Seq<QuestionView>,
}

impl View for NewSharedChallenge {
    type V = NewSharedChallengeView;

    open spec fn view(&self) -> NewSharedChallengeView {
        NewSharedChallengeView {
            name: self.name@,
            status: self.status@,
            target_media: self.target_media@,
            questions: question_views(self.questions@),
        }
    }
}

impl NewSharedChallengeView {
    /// The challenge as it is stored under an identifier: a shared one.
    pub open spec fn stored(self, id: Seq<char>) -> SharedChallengeView {
        SharedChallengeView {
            id,
            name: self.name,
            status: self.status,
            target_media: self.target_media,
            questions: self.questions,
            kind: "shared"@,
        }
    }
}

/// Which challenges a search is for: all, or those of one status, of one
/// kind of media, or of both.
pub struct ChallengeFilter {
    pub status: Option<String>,
    pub media_type: Option<String>,
}

pub struct ChallengeFilterView {
    pub status: Option<Seq<char>>,
    pub media_type: Option<Seq<char>>,
}

impl View for ChallengeFilter {
    type V = ChallengeFilterView;

    open spec fn view(&self) -> ChallengeFilterView {
        ChallengeFilterView {
            status: optional_text(self.status),
            media_type: optional_text(self.media_type),
        }
    }
}

impl ChallengeFilter {
    /// All challenges.
    pub fn new() -> (filter: ChallengeFilter)
        ensures
            filter@ == (ChallengeFilterView { status: None, media_type: None }),
    {
        ChallengeFilter { status: None, media_type: None }
    }

    /// The active challenges of one kind of media.
    pub fn active_for(media_type: &str) -> (filter: ChallengeFilter)
        ensures
            filter@ == (ChallengeFilterView {
                status: Some("active"@),
                media_type: Some(media_type@),
            }),
    {
        ChallengeFilter {
            status: Some(String::from_str("active")),
            media_type: Some(media_type.to_owned()),
        }
    }
}

impl Question {
    /// A copy of the question.
    pub fn copy(&self) -> (question: Question)
        ensures
            question@ == self@,
    {
        Question {
            kind: self.kind.clone(),
            question: self.question.clone(),
            id: self.id.clone(),
            number: self.number,
            question_cluster_size: self.question_cluster_size,
        }
    }
}

/// A copy of a list of questions.
pub fn copy_questions(questions: &Vec<Question>) -> (copy: Vec<Question>)
    ensures
        question_views(copy@) == question_views(questions@),
{
    let mut copy: Vec<Question> = Vec::new();
    let mut i: usize = 0;
    while i < questions.len()
        invariant
            i <= questions.len(),
            copy.len() == i,
            forall|j: int| 0 <= j < i ==> (#[trigger] copy[j])@ == questions[j]@,
        decreases questions.len() - i,
    {
        copy.push(questions[i].copy());
        i += 1;
    }
    assert(question_views(copy@) =~= question_views(questions@));
    copy
}

/// A challenge that is not there.
#[derive(Clone, Copy, Debug, PartialEq, Eq, Structural)]
pub enum ChallengeError {
    /// No challenge has the identifier.
    NotFound,
}

impl ChallengeError {
    pub open spec fn description(self) -> Seq<char> {
        "Challenge not found"@
    }

    /// What the error says.
    pub fn describe(&self) -> (text: String)
        ensures
            text@ == self.description(),
    {
        String::from_str("Challenge not found")
    }
}

/// The challenge to store in place of the one under `id`.
pub fn update_challenge(id: &str, challenge: &NewSharedChallenge) -> (stored: SharedChallenge)
    ensures
        stored@ == challenge@.stored(id@),
{
    SharedChallenge {
        id: id.to_owned(),
        name: challenge.name.clone(),
        status: challenge.status.clone(),
        target_media: challenge.target_media.clone(),
        questions: copy_questions(&challenge.questions),
        kind: String::from_str("shared"),
    }
}

/// The challenge to store for a new one, under a new random identifier of
/// `IDENTIFIER_LENGTH` characters.
pub fn create_challenge(challenge: &NewSharedChallenge) -> (stored: SharedChallenge)
    ensures
        stored.id@.len() == IDENTIFIER_LENGTH,
        stored@ == challenge@.stored(stored.id@),
{
    let id = fresh_identifier();
    update_challenge(id.as_str(), challenge)
}

/// What an update or a deletion comes to: an error where the storage
/// changed no challenge.
pub fn require_changed(changed: bool) -> (r: Result<(), ChallengeError>)
    ensures
        r == if changed {
            Ok::<(), ChallengeError>(())
        } else {
            Err(ChallengeError::NotFound)
        },
{
    if changed {
        Ok(())
    } else {
        Err(ChallengeError::NotFound)
    }
}

/// The status of a request that the caller may not make.
pub const FORBIDDEN: u16 = 403;

/// The status of a request for something that is not there.
pub const NOT_FOUND: u16 = 404;

/// The status of a request that failed on the server's side.
pub const INTERNAL_SERVER_ERROR: u16 = 500;

/// The status of a failed update or deletion, by what the failure says.
pub open spec fn failure_status(message: Seq<char>) -> u16 {
    if occurs(message, "Not authorized"@) {
        FORBIDDEN
    } else if occurs(message, "not found"@) {
        NOT_FOUND
    } else {
        INTERNAL_SERVER_ERROR
    }
}

/// The status of a failed update or deletion, by what the failure says.
pub fn status_of_failure(message: &str) -> (status: u16)
    ensures
        status == failure_status(message@),
{
    if contains(message, "Not authorized") {
        FORBIDDEN
    } else if contains(message, "not found") {
        NOT_FOUND
    } else {
        INTERNAL_SERVER_ERROR
    }
}

/// The conditions of a search, each with a place for one parameter.
pub open spec fn conditions(filter: ChallengeFilterView) -> Seq<Seq<char>> {
    (if filter.media_type is Some {
        seq!["target_media = ?"@]
    } else {
        Seq::empty()
    }) + (if filter.status is Some {
        seq!["status = ?"@]
    } else {
        Seq::empty()
    })
}

/// The parameters of a search, in the order of its conditions.
pub open spec fn parameters(filter: ChallengeFilterView) -> Seq<Seq<char>> {
    (match filter.media_type {
        Some(media_type) => seq![media_type],
        None => Seq::empty(),
    }) + (match filter.status {
        Some(status) => seq![status],
        None => Seq::empty(),
    })
}

/// The text of the `WHERE` clause of a search: its conditions joined by
/// `AND`, or a condition that always holds where it has none.
pub open spec fn where_clause(filter: ChallengeFilterView) -> Seq<char> {
    if conditions(filter).len() == 0 {
        " 1 = 1 "@
    } else {
        joined(conditions(filter), " AND "@)
    }
}

/// The condition of a search as the text of a `WHERE` clause, and the
/// parameters that fill its places.
pub fn to_sql_params<'a>(filter: &'a ChallengeFilter) -> (r: (String, Vec<&'a str>))
    ensures
        r.0@ == where_clause(filter@),
        borrowed_texts(r.1@) == parameters(filter@),
{
    let mut conditions: Vec<&str> = Vec::new();
    let mut params: Vec<&str> = Vec::new();
    if let Some(media_type) = &filter.media_type {
        conditions.push("target_media = ?");
        params.push(media_type.as_str());
    }
    if let Some(status) = &filter.status {
        conditions.push("status = ?");
        params.push(status.as_str());
    }
    assert(borrowed_texts(conditions@) =~= self::conditions(filter@));
    assert(borrowed_texts(params@) =~= parameters(filter@));
    if conditions.len() == 0 {
        return (String::from_str(" 1 = 1 "), params);
    }
    (join(&conditions, " AND "), params)
}

} // verus!
