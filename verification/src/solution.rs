//! The solutions that a user records for the questions of a challenge.

use vstd::prelude::*;
use vstd::string::*;

use crate::challenge_answers::optional_str;
use crate::identifier::fresh_identifier;
use crate::identifier::IDENTIFIER_LENGTH;
use crate::text::borrowed_texts;
use crate::text::copy_optional_text;
use crate::text::copy_optional_texts;
use crate::text::join;
use crate::text::joined;
use crate::text::lists;
use crate::text::optional_text;
use crate::text::optional_texts;
use crate::text::pieces;
use crate::text::split;
use crate::text::texts;

verus! {

/// One solution, as it is stored: a single answer item, several answer
/// items, or neither, by the kind of the question.
#[derive(Debug, Clone)]
pub struct QuestionSolution {
    pub id: String,
    pub user_id: String,
    pub challenge_id: String,
    pub question_id: String,
    pub kind: String,
    pub single_answer_item_id: Option<String>,
    pub multiple_answer_item_ids: Option<Vec<String>>,
}

pub struct QuestionSolutionView {
    pub id: Seq<char>,
    pub user_id: Seq<char>,
    pub challenge_id: Seq<char>,
    pub question_id: Seq<char>,
    pub kind: Seq<char>,
    pub single_answer_item_id: Option<Seq<char>>,
    pub multiple_answer_item_ids: Option<Seq<Seq<char>>>,
}

impl View for QuestionSolution {
    type V = QuestionSolutionView;

    open spec fn view(&self) -> QuestionSolutionView {
        QuestionSolutionView {
            id: self.id@,
            user_id: self.user_id@,
            challenge_id: self.challenge_id@,
            question_id: self.question_id@,
            kind: self.kind@,
            single_answer_item_id: optional_text(self.single_answer_item_id),
            multiple_answer_item_ids: optional_texts(self.multiple_answer_item_ids),
        }
    }
}

/// The identifiers of the solutions of a list.
pub open spec fn solution_ids(solutions: Seq<QuestionSolution>) -> Seq<Seq<char>> {
    solutions.map_values(|solution: QuestionSolution| solution.id@)
}

/// Which solutions a search is for: those of one user, and where given of
/// one challenge.
#[derive(Debug, Clone, Copy)]
pub struct SolutionFilter<'a> {
    pub user_id: &'a str,
    pub challenge_id: Option<&'a str>,
}

pub struct SolutionFilterView {
    pub user_id: Seq<char>,
    pub challenge_id: Option<Seq<char>>,
}

impl View for SolutionFilter<'_> {
    type V = SolutionFilterView;

    open spec fn view(&self) -> SolutionFilterView {
        SolutionFilterView {
            user_id: self.user_id@,
            challenge_id: optional_str(self.challenge_id),
        }
    }
}

impl<'a> SolutionFilter<'a> {
    /// All solutions of a user.
    pub fn new(user_id: &'a str) -> (filter: SolutionFilter<'a>)
        ensures
            filter@ == (SolutionFilterView { user_id: user_id@, challenge_id: None }),
    {
        SolutionFilter { user_id, challenge_id: None }
    }

    /// The same search, narrowed to one challenge.
    pub fn with_challenge_id(self, challenge_id: &'a str) -> (filter: SolutionFilter<'a>)
        ensures
            filter@ == (SolutionFilterView { challenge_id: Some(challenge_id@), ..self@ }),
    {
        SolutionFilter { user_id: self.user_id, challenge_id: Some(challenge_id) }
    }
}

/// One solution, as a caller sends and receives it.
#[derive(Clone, Debug)]
pub struct ApiQuestionSolution {
    pub id: Option<String>,
    pub question_id: String,
    pub kind: String,
    pub single_answer_item_id: Option<String>,
    pub multiple_answer_item_ids: Option<Vec<String>>,
}

pub struct ApiQuestionSolutionView {
    pub id: Option<Seq<char>>,
    pub question_id: Seq<char>,
    pub kind: Seq<char>,
    pub single_answer_item_id: Option<Seq<char>>,
    pub multiple_answer_item_ids: Option<Seq<Seq<char>>>,
}

impl View for ApiQuestionSolution {
    type V = ApiQuestionSolutionView;

    open spec fn view(&self) -> ApiQuestionSolutionView {
        ApiQuestionSolutionView {
            id: optional_text(self.id),
            question_id: self.question_id@,
            kind: self.kind@,
            single_answer_item_id: optional_text(self.single_answer_item_id),
            multiple_answer_item_ids: optional_texts(self.multiple_answer_item_ids),
        }
    }
}

impl QuestionSolutionView {
    /// The solution as a caller receives it.
    pub open spec fn sent(self) -> ApiQuestionSolutionView {
        ApiQuestionSolutionView {
            id: Some(self.id),
            question_id: self.question_id,
            kind: self.kind,
            single_answer_item_id: self.single_answer_item_id,
            multiple_answer_item_ids: self.multiple_answer_item_ids,
        }
    }

    /// The solution as it is written: an empty single answer item counts
    /// as none, and so does an empty list of answer items.
    pub open spec fn validated(self) -> QuestionSolutionView {
        QuestionSolutionView {
            single_answer_item_id: match self.single_answer_item_id {
                Some(item) if item.len() > 0 => Some(item),
                _ => None,
            },
            multiple_answer_item_ids: match self.multiple_answer_item_ids {
                Some(items) if items.len() > 0 => Some(items),
                _ => None,
            },
            ..self
        }
    }
}

impl ApiQuestionSolutionView {
    /// The solution as it is stored for a user and a challenge, under its
    /// own identifier or under `fresh` where it has none.
    pub open spec fn received(self, user_id: Seq<char>, challenge_id: Seq<char>, fresh: Seq<char>)
        -> QuestionSolutionView {
        QuestionSolutionView {
            id: match self.id {
                Some(id) => id,
                None => fresh,
            },
            user_id,
            challenge_id,
            question_id: self.question_id,
            kind: self.kind,
            single_answer_item_id: self.single_answer_item_id,
            multiple_answer_item_ids: self.multiple_answer_item_ids,
        }
    }
}

impl ApiQuestionSolution {
    /// The stored solution as a caller receives it.
    pub fn from(solution: &QuestionSolution) -> (sent: ApiQuestionSolution)
        ensures
            sent@ == solution@.sent(),
    {
        ApiQuestionSolution {
            id: Some(solution.id.clone()),
            question_id: solution.question_id.clone(),
            kind: solution.kind.clone(),
            single_answer_item_id: copy_optional_text(&solution.single_answer_item_id),
            multiple_answer_item_ids: copy_optional_texts(&solution.multiple_answer_item_ids),
        }
    }

    /// The solution as it is stored for a user and a challenge. A solution
    /// without an identifier is given `fresh`.
    pub fn to_domain_with(&self, user_id: &str, challenge_id: &str, fresh: String) -> (solution:
        QuestionSolution)
        ensures
            solution@ == self@.received(user_id@, challenge_id@, fresh@),
    {
        QuestionSolution {
            id: match &self.id {
                Some(id) => id.clone(),
                None => fresh,
            },
            user_id: user_id.to_owned(),
            challenge_id: challenge_id.to_owned(),
            question_id: self.question_id.clone(),
            kind: self.kind.clone(),
            single_answer_item_id: copy_optional_text(&self.single_answer_item_id),
            multiple_answer_item_ids: copy_optional_texts(&self.multiple_answer_item_ids),
        }
    }

    /// The solution as it is stored for a user and a challenge. A solution
    /// without an identifier is given a new random one of
    /// `IDENTIFIER_LENGTH` characters.
    pub fn to_domain(&self, user_id: &str, challenge_id: &str) -> (solution: QuestionSolution)
        ensures
            exists|fresh: Seq<char>|
                fresh.len() == IDENTIFIER_LENGTH && solution@ == #[trigger] self@.received(
                    user_id@,
                    challenge_id@,
                    fresh,
                ),
    {
        self.to_domain_with(user_id, challenge_id, fresh_identifier())
    }
}

impl QuestionSolution {
    /// A copy of the solution as it is written.
    pub fn validated(&self) -> (solution: QuestionSolution)
        ensures
            solution@ == self@.validated(),
    {
        let single = match &self.single_answer_item_id {
            Some(item) => if !item.as_str().is_empty() {
                Some(item.clone())
            } else {
                None
            },
            None => None,
        };
        let multiple = match &self.multiple_answer_item_ids {
            Some(items) => if items.len() > 0 {
                Some(crate::text::copy_texts(items))
            } else {
                None
            },
            None => None,
        };
        QuestionSolution {
            id: self.id.clone(),
            user_id: self.user_id.clone(),
            challenge_id: self.challenge_id.clone(),
            question_id: self.question_id.clone(),
            kind: self.kind.clone(),
            single_answer_item_id: single,
            multiple_answer_item_ids: multiple,
        }
    }
}

/// One write of a plan.
pub enum SolutionWrite {
    /// The solution is stored: it is updated.
    Update(QuestionSolution),
    /// The solution is not stored: it is created.
    Create(QuestionSolution),
}

pub enum SolutionWriteView {
    Update(QuestionSolutionView),
    Create(QuestionSolutionView),
}

impl View for SolutionWrite {
    type V = SolutionWriteView;

    open spec fn view(&self) -> SolutionWriteView {
        match self {
            SolutionWrite::Update(solution) => SolutionWriteView::Update(solution@),
            SolutionWrite::Create(solution) => SolutionWriteView::Create(solution@),
        }
    }
}

/// What is to be done for a set of solutions: the writes, in the order of
/// the set, and then the deletions.
pub struct SolutionPlan {
    pub writes: Vec<SolutionWrite>,
    pub delete: Vec<String>,
}

/// The write of a solution over the stored identifiers.
pub open spec fn write_of(solution: QuestionSolutionView, stored: Seq<Seq<char>>)
    -> SolutionWriteView {
    if stored.contains(solution.id) {
        SolutionWriteView::Update(solution.validated())
    } else {
        SolutionWriteView::Create(solution.validated())
    }
}

/// Of the stored identifiers, in their order, those that are not among the
/// incoming ones.
pub open spec fn dropped(stored: Seq<Seq<char>>, incoming: Seq<Seq<char>>) -> Seq<Seq<char>>
    decreases stored.len(),
{
    if stored.len() == 0 {
        Seq::empty()
    } else if incoming.contains(stored.last()) {
        dropped(stored.drop_last(), incoming)
    } else {
        dropped(stored.drop_last(), incoming).push(stored.last())
    }
}

/// Plans the writing of a set of solutions over the solutions that are
/// stored for the user and the challenge: each solution of the set is
/// written as validated, updated where its identifier is stored and
/// created where it is not; then each stored solution whose identifier is
/// not in the set is deleted.
pub fn upsert_solutions(existing: &Vec<QuestionSolution>, solutions: &Vec<QuestionSolution>) -> (plan:
    SolutionPlan)
    ensures
        plan.writes.len() == solutions.len(),
        forall|i: int|
            0 <= i < solutions.len() ==> (#[trigger] plan.writes[i])@ == write_of(
                solutions[i]@,
                solution_ids(existing@),
            ),
        texts(plan.delete@) == dropped(solution_ids(existing@), solution_ids(solutions@)),
{
    let stored = ids_of(existing);
    let incoming = ids_of(solutions);
    let mut writes: Vec<SolutionWrite> = Vec::new();
    let mut i: usize = 0;
    while i < solutions.len()
        invariant
            i <= solutions.len(),
            writes.len() == i,
            texts(stored@) == solution_ids(existing@),
            forall|j: int|
                0 <= j < i ==> (#[trigger] writes[j])@ == write_of(
                    solutions[j]@,
                    solution_ids(existing@),
                ),
        decreases solutions.len() - i,
    {
        let solution = &solutions[i];
        if lists(&stored, solution.id.as_str()) {
            writes.push(SolutionWrite::Update(solution.validated()));
        } else {
            writes.push(SolutionWrite::Create(solution.validated()));
        }
        i += 1;
    }
    let mut delete: Vec<String> = Vec::new();
    let mut k: usize = 0;
    while k < stored.len()
        invariant
            k <= stored.len(),
            texts(incoming@) == solution_ids(solutions@),
            texts(delete@) == dropped(texts(stored@).take(k as int), texts(incoming@)),
        decreases stored.len() - k,
    {
        proof {
            assert(texts(stored@).take(k + 1).drop_last() == texts(stored@).take(k as int));
            assert(texts(stored@).take(k + 1).last() == stored[k as int]@);
        }
        if !lists(&incoming, stored[k].as_str()) {
            let ghost kept = texts(delete@);
            delete.push(stored[k].clone());
            assert(texts(delete@) =~= kept.push(stored[k as int]@));
        }
        k += 1;
    }
    assert(texts(stored@).take(stored.len() as int) == texts(stored@));
    SolutionPlan { writes, delete }
}

/// The identifiers of the solutions of a list.
fn ids_of(solutions: &Vec<QuestionSolution>) -> (ids: Vec<String>)
    ensures
        texts(ids@) == solution_ids(solutions@),
{
    let mut ids: Vec<String> = Vec::new();
    let mut i: usize = 0;
    while i < solutions.len()
        invariant
            i <= solutions.len(),
            ids.len() == i,
            forall|j: int| 0 <= j < i ==> (#[trigger] ids[j])@ == solutions[j].id@,
        decreases solutions.len() - i,
    {
        ids.push(solutions[i].id.clone());
        i += 1;
    }
    assert(texts(ids@) =~= solution_ids(solutions@));
    ids
}

/// The answer items of a stored solution, which are stored as one text
/// with a comma between each two: none where nothing is stored.
pub fn answer_items(stored: Option<&str>) -> (items: Option<Vec<String>>)
    ensures
        optional_texts(items) == match stored {
            Some(text) => Some(pieces(text@, ',')),
            None => None,
        },
{
    match stored {
        Some(text) => Some(split(text, ',')),
        None => None,
    }
}

/// The conditions of a search, each with a place for one parameter.
pub open spec fn conditions(filter: SolutionFilterView) -> Seq<Seq<char>> {
    seq!["user_id = ?"@] + (if filter.challenge_id is Some {
        seq!["challenge_id = ?"@]
    } else {
        Seq::empty()
    })
}

/// The parameters of a search, in the order of its conditions.
pub open spec fn parameters(filter: SolutionFilterView) -> Seq<Seq<char>> {
    seq![filter.user_id] + (match filter.challenge_id {
        Some(challenge_id) => seq![challenge_id],
        None => Seq::empty(),
    })
}

/// The condition of a search as the text of a `WHERE` clause, its
/// conditions joined by `AND`, and the parameters that fill its places.
pub fn to_sql_params<'a>(filter: &SolutionFilter<'a>) -> (r: (String, Vec<&'a str>))
    ensures
        r.0@ == joined(conditions(filter@), " AND "@),
        borrowed_texts(r.1@) == parameters(filter@),
{
    let mut conditions: Vec<&str> = Vec::new();
    let mut params: Vec<&str> = Vec::new();
    conditions.push("user_id = ?");
    params.push(filter.user_id);
    if let Some(challenge_id) = filter.challenge_id {
        conditions.push("challenge_id = ?");
        params.push(challenge_id);
    }
    assert(borrowed_texts(conditions@) =~= self::conditions(filter@));
    assert(borrowed_texts(params@) =~= parameters(filter@));
    (join(&conditions, " AND "), params)
}

} // verus!
