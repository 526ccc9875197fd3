//! The answers that a user gives to the questions of a challenge.

use vstd::prelude::*;
use vstd::string::*;

use crate::auth::User;
use crate::identifier::fresh_identifier;
use crate::identifier::IDENTIFIER_LENGTH;
use crate::text::borrowed_texts;
use crate::text::is_visible;
use crate::text::join;
use crate::text::joined;
use crate::text::lists;
use crate::text::optional_text;
use crate::text::same;
use crate::text::visible;

verus! {

/// Which answers a search is for: those of one user, and where given of
/// one library item and of one challenge.
#[derive(Debug, Clone)]
pub struct AnswerFilter<'a> {
    pub user_id: &'a str,
    pub item_id: Option<&'a str>,
    pub challenge_id: Option<&'a str>,
}

pub struct AnswerFilterView {
    pub user_id: Seq<char>,
    pub item_id: Option<Seq<char>>,
    pub challenge_id: Option<Seq<char>>,
}

/// A borrowed text that is or is not there, by its characters.
pub open spec fn optional_str(value: Option<&str>) -> Option<Seq<char>> {
    match value {
        Some(text) => Some(text@),
        None => None,
    }
}

impl View for AnswerFilter<'_> {
    type V = AnswerFilterView;

    open spec fn view(&self) -> AnswerFilterView {
        AnswerFilterView {
            user_id: self.user_id@,
            item_id: optional_str(self.item_id),
            challenge_id: optional_str(self.challenge_id),
        }
    }
}

impl AnswerFilter<'_> {
    /// All answers of a user.
    pub fn new(user_id: &str) -> (filter: AnswerFilter<'_>)
        ensures
            filter@ == (AnswerFilterView { user_id: user_id@, item_id: None, challenge_id: None }),
    {
        AnswerFilter { user_id, item_id: None, challenge_id: None }
    }

    /// The same search, narrowed to one library item.
    pub fn with_item_id<'a>(&'a self, item_id: &'a str) -> (filter: AnswerFilter<'a>)
        ensures
            filter@ == (AnswerFilterView { item_id: Some(item_id@), ..self@ }),
    {
        AnswerFilter {
            user_id: self.user_id,
            item_id: Some(item_id),
            challenge_id: self.challenge_id,
        }
    }

    /// The same search, narrowed to one challenge.
    pub fn with_challenge_id<'a>(&'a self, challenge_id: &'a str) -> (filter: AnswerFilter<'a>)
        ensures
            filter@ == (AnswerFilterView { challenge_id: Some(challenge_id@), ..self@ }),
    {
        AnswerFilter {
            user_id: self.user_id,
            item_id: self.item_id,
            challenge_id: Some(challenge_id),
        }
    }
}

/// One answer, as it is stored.
#[derive(Debug, Clone)]
pub struct Answer {
    pub id: String,
    pub question_id: String,
    pub challenge_id: String,
    pub user_id: String,
    pub kind: String,
    pub answered: bool,
    pub answer: String,
    pub item_id: String,
}

pub struct AnswerView {
    pub id: Seq<char>,
    pub question_id: Seq<char>,
    pub challenge_id: Seq<char>,
    pub user_id: Seq<char>,
    pub kind: Seq<char>,
    pub answered: bool,
    pub answer: Seq<char>,
    pub item_id: Seq<char>,
}

impl View for Answer {
    type V = AnswerView;

    open spec fn view(&self) -> AnswerView {
        AnswerView {
            id: self.id@,
            question_id: self.question_id@,
            challenge_id: self.challenge_id@,
            user_id: self.user_id@,
            kind: self.kind@,
            answered: self.answered,
            answer: self.answer@,
            item_id: self.item_id@,
        }
    }
}

/// The views of the answers of a list.
pub open spec fn answer_views(answers: Seq<Answer>) -> Seq<AnswerView> {
    answers.map_values(|answer: Answer| answer@)
}

impl AnswerView {
    /// Whether the answer counts as given: a yes-or-no answer always does,
    /// a text answer does where the text is more than white space, and an
    /// answer of any other kind never does.
    pub open spec fn is_answered(self) -> bool {
        if self.kind == "Boolean"@ {
            true
        } else if self.kind == "TextInput"@ {
            is_visible(self.answer)
        } else {
            false
        }
    }

    /// The answer with its mark set to whether it counts as given.
    pub open spec fn marked(self) -> AnswerView {
        AnswerView { answered: self.is_answered(), ..self }
    }
}

impl Answer {
    /// Whether the answer counts as given.
    pub fn is_answered(&self) -> (r: bool)
        ensures
            r == self@.is_answered(),
    {
        if same(self.kind.as_str(), "Boolean") {
            true
        } else if same(self.kind.as_str(), "TextInput") {
            visible(self.answer.as_str())
        } else {
            false
        }
    }

    /// A copy of the answer with its mark set to whether it counts as
    /// given.
    pub fn marked(&self) -> (answer: Answer)
        ensures
            answer@ == self@.marked(),
    {
        Answer {
            id: self.id.clone(),
            question_id: self.question_id.clone(),
            challenge_id: self.challenge_id.clone(),
            user_id: self.user_id.clone(),
            kind: self.kind.clone(),
            answered: self.is_answered(),
            answer: self.answer.clone(),
            item_id: self.item_id.clone(),
        }
    }
}

/// One answer, as a caller sends and receives it.
#[derive(Clone, Debug)]
pub struct ApiAnswer {
    pub kind: String,
    pub id: Option<String>,
    pub question_id: String,
    pub answered: bool,
    pub answer: String,
    pub item_id: String,
}

pub struct ApiAnswerView {
    pub kind: Seq<char>,
    pub id: Option<Seq<char>>,
    pub question_id: Seq<char>,
    pub answered: bool,
    pub answer: Seq<char>,
    pub item_id: Seq<char>,
}

impl View for ApiAnswer {
    type V = ApiAnswerView;

    open spec fn view(&self) -> ApiAnswerView {
        ApiAnswerView {
            kind: self.kind@,
            id: optional_text(self.id),
            question_id: self.question_id@,
            answered: self.answered,
            answer: self.answer@,
            item_id: self.item_id@,
        }
    }
}

impl AnswerView {
    /// The answer as a caller receives it.
    pub open spec fn sent(self) -> ApiAnswerView {
        ApiAnswerView {
            kind: self.kind,
            id: Some(self.id),
            question_id: self.question_id,
            answered: self.answered,
            answer: self.answer,
            item_id: self.item_id,
        }
    }
}

impl ApiAnswerView {
    /// The answer as it is stored for a user, a library item and a
    /// challenge, under its own identifier or under `fresh` where it has
    /// none.
    pub open spec fn received(
        self,
        user_id: Seq<char>,
        item_id: Seq<char>,
        challenge_id: Seq<char>,
        fresh: Seq<char>,
    ) -> AnswerView {
        AnswerView {
            id: match self.id {
                Some(id) => id,
                None => fresh,
            },
            question_id: self.question_id,
            challenge_id,
            user_id,
            kind: self.kind,
            answered: self.answered,
            answer: self.answer,
            item_id,
        }
    }
}

impl ApiAnswer {
    /// The stored answer as a caller receives it.
    pub fn from(answer: &Answer) -> (sent: ApiAnswer)
        ensures
            sent@ == answer@.sent(),
    {
        ApiAnswer {
            id: Some(answer.id.clone()),
            question_id: answer.question_id.clone(),
            kind: answer.kind.clone(),
            answered: answer.answered,
            answer: answer.answer.clone(),
            item_id: answer.item_id.clone(),
        }
    }

    /// The answer as it is stored for a user, a library item and a
    /// challenge. An answer without an identifier is given `fresh`.
    pub fn to_domain_with(
        &self,
        user_id: &str,
        item_id: &str,
        challenge_id: &str,
        fresh: String,
    ) -> (answer: Answer)
        ensures
            answer@ == self@.received(user_id@, item_id@, challenge_id@, fresh@),
    {
        Answer {
            id: match &self.id {
                Some(id) => id.clone(),
                None => fresh,
            },
            question_id: self.question_id.clone(),
            challenge_id: challenge_id.to_owned(),
            user_id: user_id.to_owned(),
            kind: self.kind.clone(),
            answered: self.answered,
            answer: self.answer.clone(),
            item_id: item_id.to_owned(),
        }
    }

    /// The answer as it is stored for a user, a library item and a
    /// challenge. An answer without an identifier is given a new random one
    /// of `IDENTIFIER_LENGTH` characters.
    pub fn to_domain(&self, user_id: &str, item_id: &str, challenge_id: &str) -> (answer: Answer)
        ensures
            exists|fresh: Seq<char>|
                fresh.len() == IDENTIFIER_LENGTH && answer@ == #[trigger] self@.received(
                    user_id@,
                    item_id@,
                    challenge_id@,
                    fresh,
                ),
    {
        self.to_domain_with(user_id, item_id, challenge_id, fresh_identifier())
    }
}

/// The stored answers as a caller receives them, in their order.
pub fn convert_to_api_answers(answers: Vec<Answer>) -> (sent: Vec<ApiAnswer>)
    ensures
        sent.len() == answers.len(),
        forall|i: int| 0 <= i < sent.len() ==> (#[trigger] sent[i])@ == answers[i]@.sent(),
{
    let mut sent: Vec<ApiAnswer> = Vec::new();
    let mut i: usize = 0;
    while i < answers.len()
        invariant
            i <= answers.len(),
            sent.len() == i,
            forall|j: int| 0 <= j < i ==> (#[trigger] sent[j])@ == answers[j]@.sent(),
        decreases answers.len() - i,
    {
        sent.push(ApiAnswer::from(&answers[i]));
        i += 1;
    }
    sent
}

/// Why the answers of a library item are not taken.
#[derive(Clone, Copy, Debug, PartialEq, Eq, Structural)]
pub enum UpsertRefusal {
    /// There is no such library item.
    ItemNotFound,
    /// The library item belongs to another user.
    NotOwner,
}

/// Why the answers of a library item are not taken from a user, if they
/// are not: the item must exist and be the user's own. `owner` is the
/// user of the item, none where there is no such item.
pub open spec fn refused(user_id: Seq<char>, owner: Option<Seq<char>>) -> Option<UpsertRefusal> {
    match owner {
        None => Some(UpsertRefusal::ItemNotFound),
        Some(owner) => if owner == user_id {
            None
        } else {
            Some(UpsertRefusal::NotOwner)
        },
    }
}

/// Whether a user may give answers for a library item: the item must
/// exist and be the user's own. `owner` is the user of the item, none
/// where there is no such item.
pub fn owner_check(user: &User, owner: Option<&str>) -> (r: Result<(), UpsertRefusal>)
    ensures
        r == match refused(user.id@, optional_str(owner)) {
            Some(refusal) => Err::<(), UpsertRefusal>(refusal),
            None => Ok(()),
        },
{
    match owner {
        None => Err(UpsertRefusal::ItemNotFound),
        Some(owner) => if same(owner, user.id.as_str()) {
            Ok(())
        } else {
            Err(UpsertRefusal::NotOwner)
        },
    }
}

/// What is to be written for a set of answers: the answers to create and
/// the answers to update. The creations are written first.
pub struct AnswerPlan {
    pub create: Vec<Answer>,
    pub update: Vec<Answer>,
}

/// Of the answers of a set, in their order and each with its mark set,
/// those whose identifier is among the stored ones (`known`) or those
/// whose identifier is not.
pub open spec fn chosen(answers: Seq<AnswerView>, stored: Seq<Seq<char>>, known: bool) -> Seq<
    AnswerView,
>
    decreases answers.len(),
{
    if answers.len() == 0 {
        Seq::empty()
    } else if stored.contains(answers.last().id) == known {
        chosen(answers.drop_last(), stored, known).push(answers.last().marked())
    } else {
        chosen(answers.drop_last(), stored, known)
    }
}

/// The identifiers of the answers of a list.
pub open spec fn answer_ids(answers: Seq<Answer>) -> Seq<Seq<char>> {
    answers.map_values(|answer: Answer| answer.id@)
}

/// Plans the writing of a set of answers of a user for a library item,
/// over the answers that are stored. Nothing is planned for an item that
/// does not exist or belongs to another user: `owner` is the user of the
/// item, none where there is no such item. Else an answer whose
/// identifier is not stored is created, one whose identifier is stored is
/// updated, and each is written with its mark set to whether it counts as
/// given.
pub fn upsert_answers(
    user: &User,
    owner: Option<&str>,
    current_answers: &Vec<Answer>,
    answer_set: &Vec<Answer>,
) -> (r: Result<AnswerPlan, UpsertRefusal>)
    ensures
        match r {
            Ok(plan) => {
                &&& refused(user.id@, optional_str(owner)) is None
                &&& answer_views(plan.create@) == chosen(
                    answer_views(answer_set@),
                    answer_ids(current_answers@),
                    false,
                )
                &&& answer_views(plan.update@) == chosen(
                    answer_views(answer_set@),
                    answer_ids(current_answers@),
                    true,
                )
            },
            Err(refusal) => refused(user.id@, optional_str(owner)) == Some(refusal),
        },
{
    match owner_check(user, owner) {
        Ok(()) => Ok(plan(current_answers, answer_set)),
        Err(refusal) => Err(refusal),
    }
}

/// The writes for a set of answers over the answers that are stored.
fn plan(current_answers: &Vec<Answer>, answer_set: &Vec<Answer>) -> (plan: AnswerPlan)
    ensures
        answer_views(plan.create@) == chosen(
            answer_views(answer_set@),
            answer_ids(current_answers@),
            false,
        ),
        answer_views(plan.update@) == chosen(
            answer_views(answer_set@),
            answer_ids(current_answers@),
            true,
        ),
{
    let mut stored: Vec<String> = Vec::new();
    let mut k: usize = 0;
    while k < current_answers.len()
        invariant
            k <= current_answers.len(),
            stored.len() == k,
            forall|j: int| 0 <= j < k ==> (#[trigger] stored[j])@ == current_answers[j].id@,
        decreases current_answers.len() - k,
    {
        stored.push(current_answers[k].id.clone());
        k += 1;
    }
    assert(crate::text::texts(stored@) =~= answer_ids(current_answers@));
    let ghost ids = answer_ids(current_answers@);
    let ghost set = answer_views(answer_set@);
    let mut create: Vec<Answer> = Vec::new();
    let mut update: Vec<Answer> = Vec::new();
    let mut i: usize = 0;
    while i < answer_set.len()
        invariant
            i <= answer_set.len(),
            ids == crate::text::texts(stored@),
            set == answer_views(answer_set@),
            answer_views(create@) == chosen(set.take(i as int), ids, false),
            answer_views(update@) == chosen(set.take(i as int), ids, true),
        decreases answer_set.len() - i,
    {
        let answer = &answer_set[i];
        proof {
            assert(set.take(i + 1).drop_last() == set.take(i as int));
            assert(set.take(i + 1).last() == answer@);
        }
        if lists(&stored, answer.id.as_str()) {
            update.push(answer.marked());
            assert(answer_views(update@) =~= chosen(set.take(i as int), ids, true).push(
                answer@.marked(),
            ));
        } else {
            create.push(answer.marked());
            assert(answer_views(create@) =~= chosen(set.take(i as int), ids, false).push(
                answer@.marked(),
            ));
        }
        i += 1;
    }
    assert(set.take(answer_set.len() as int) == set);
    AnswerPlan { create, update }
}

/// The conditions of a search, each with a place for one parameter.
pub open spec fn conditions(filter: AnswerFilterView) -> Seq<Seq<char>> {
    seq!["user_id = ?"@] + (if filter.item_id is Some {
        seq!["item_id = ?"@]
    } else {
        Seq::empty()
    }) + (if filter.challenge_id is Some {
        seq!["challenge_id = ?"@]
    } else {
        Seq::empty()
    })
}

/// The parameters of a search, in the order of its conditions.
pub open spec fn parameters(filter: AnswerFilterView) -> Seq<Seq<char>> {
    seq![filter.user_id] + (match filter.item_id {
        Some(item_id) => seq![item_id],
        None => Seq::empty(),
    }) + (match filter.challenge_id {
        Some(challenge_id) => seq![challenge_id],
        None => Seq::empty(),
    })
}

/// The condition of a search as the text of a `WHERE` clause, its
/// conditions joined by `AND`, and the parameters that fill its places.
pub fn to_sql_params<'a>(filter: &AnswerFilter<'a>) -> (r: (String, Vec<&'a str>))
    ensures
        r.0@ == joined(conditions(filter@), " AND "@),
        borrowed_texts(r.1@) == parameters(filter@),
{
    let mut conditions: Vec<&str> = Vec::new();
    let mut params: Vec<&str> = Vec::new();
    params.push(filter.user_id);
    conditions.push("user_id = ?");
    if let Some(item_id) = filter.item_id {
        conditions.push("item_id = ?");
        params.push(item_id);
    }
    if let Some(challenge_id) = filter.challenge_id {
        conditions.push("challenge_id = ?");
        params.push(challenge_id);
    }
    assert(borrowed_texts(conditions@) =~= self::conditions(filter@));
    assert(borrowed_texts(params@) =~= parameters(filter@));
    (join(&conditions, " AND "), params)
}

} // verus!
