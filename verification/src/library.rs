//! The reading library of a user: the items, and who may see and change
//! them.

use vstd::prelude::*;
use vstd::string::*;

use crate::auth::User;
use crate::challenge::SharedChallenge;
use crate::clock::now_rfc3339;
use crate::identifier::fresh_identifier;
use crate::identifier::IDENTIFIER_LENGTH;
use crate::text::borrowed_texts;
use crate::text::copy_optional_text;
use crate::text::copy_texts;
use crate::text::join;
use crate::text::joined;
use crate::text::optional_text;
use crate::text::pieces;
use crate::text::same;
use crate::text::split;
use crate::text::texts;

verus! {

/// Which items a search is for: those of one user, and where given the one
/// with an identifier.
#[derive(Debug, Clone)]
pub struct LibraryFilter {
    pub user_id: String,
    pub item_id: Option<String>,
}

pub struct LibraryFilterView {
    pub user_id: Seq<char>,
    pub item_id: Option<Seq<char>>,
}

impl View for LibraryFilter {
    type V = LibraryFilterView;

    open spec fn view(&self) -> LibraryFilterView {
        LibraryFilterView { user_id: self.user_id@, item_id: optional_text(self.item_id) }
    }
}

/// An item of a library, as it is stored.
#[derive(Clone, Debug)]
pub struct LibraryItem {
    pub id: String,
    pub user_id: String,
    pub kind: String,
    pub title: String,
    pub author: String,
    pub added_at: String,
    pub completed_at: String,
    pub favorite: bool,
    pub activated_challenge_ids: Vec<String>,
    pub translator: Option<String>,
}

pub struct LibraryItemView {
    pub id: Seq<char>,
    pub user_id: Seq<char>,
    pub kind: Seq<char>,
    pub title: Seq<char>,
    pub author: Seq<char>,
    pub added_at: Seq<char>,
    pub completed_at: Seq<char>,
    pub favorite: bool,
    pub activated_challenge_ids: Seq<Seq<char>>,
    pub translator: Option<Seq<char>>,
}

impl View for LibraryItem {
    type V = LibraryItemView;

    open spec fn view(&self) -> LibraryItemView {
        LibraryItemView {
            id: self.id@,
            user_id: self.user_id@,
            kind: self.kind@,
            title: self.title@,
            author: self.author@,
            added_at: self.added_at@,
            completed_at: self.completed_at@,
            favorite: self.favorite,
            activated_challenge_ids: texts(self.activated_challenge_ids@),
            translator: optional_text(self.translator),
        }
    }
}

/// An item of a library, as a caller sends it.
#[derive(Clone, Debug)]
pub struct NewLibraryItem {
    pub kind: String,
    pub title: String,
    pub author: String,
    pub completed_at: String,
    pub favorite: bool,
    pub activated_challenge_ids: Vec<String>,
    pub translator: Option<String>,
}

pub struct NewLibraryItemView {
    pub kind: Seq<char>,
    pub title: Seq<char>,
    pub author: Seq<char>,
    pub completed_at: Seq<char>,
    pub favorite: bool,
    pub activated_challenge_ids: Seq<Seq<char>>,
    pub translator: Option<Seq<char>>,
}

impl View for NewLibraryItem {
    type V = NewLibraryItemView;

    open spec fn view(&self) -> NewLibraryItemView {
        NewLibraryItemView {
            kind: self.kind@,
            title: self.title@,
            author: self.author@,
            completed_at: self.completed_at@,
            favorite: self.favorite,
            activated_challenge_ids: texts(self.activated_challenge_ids@),
            translator: optional_text(self.translator),
        }
    }
}

/// An item that is or is not there, by its view.
pub open spec fn optional_item(item: Option<LibraryItem>) -> Option<LibraryItemView> {
    match item {
        Some(item) => Some(item@),
        None => None,
    }
}

/// The identifiers of the challenges of a list.
pub open spec fn challenge_ids(challenges: Seq<SharedChallenge>) -> Seq<Seq<char>> {
    challenges.map_values(|challenge: SharedChallenge| challenge.id@)
}

impl NewLibraryItemView {
    /// The item as it is stored for a user: under an identifier, with the
    /// time it was added and with the challenges that are activated for it.
    pub open spec fn stored(
        self,
        id: Seq<char>,
        user_id: Seq<char>,
        added_at: Seq<char>,
        activated: Seq<Seq<char>>,
    ) -> LibraryItemView {
        LibraryItemView {
            id,
            user_id,
            kind: self.kind,
            title: self.title,
            author: self.author,
            added_at,
            completed_at: self.completed_at,
            favorite: self.favorite,
            activated_challenge_ids: activated,
            translator: self.translator,
        }
    }
}

impl LibraryFilter {
    /// All items of a user.
    pub fn of_user(user: &User) -> (filter: LibraryFilter)
        ensures
            filter@ == (LibraryFilterView { user_id: user.id@, item_id: None }),
    {
        LibraryFilter { user_id: user.id.clone(), item_id: None }
    }
}

/// Whether an item is a user's own: it must exist and belong to the user.
pub fn is_owner(item: &Option<LibraryItem>, user: &User) -> (r: bool)
    ensures
        r == (*item matches Some(found) && found.user_id@ == user.id@),
{
    match item {
        Some(found) => same(found.user_id.as_str(), user.id.as_str()),
        None => false,
    }
}

/// The item as its reader may see it: an item of another user counts as
/// not there.
pub fn visible_to(item: Option<LibraryItem>, user: &User) -> (seen: Option<LibraryItem>)
    ensures
        seen == if item matches Some(found) && found.user_id@ == user.id@ {
            item
        } else {
            None
        },
{
    if is_owner(&item, user) {
        item
    } else {
        None
    }
}

/// The identifiers of the challenges of a list.
pub fn ids_of(challenges: &Vec<SharedChallenge>) -> (ids: Vec<String>)
    ensures
        texts(ids@) == challenge_ids(challenges@),
{
    let mut ids: Vec<String> = Vec::new();
    let mut i: usize = 0;
    while i < challenges.len()
        invariant
            i <= challenges.len(),
            ids.len() == i,
            forall|j: int| 0 <= j < i ==> (#[trigger] ids[j])@ == challenges[j].id@,
        decreases challenges.len() - i,
    {
        ids.push(challenges[i].id.clone());
        i += 1;
    }
    assert(texts(ids@) =~= challenge_ids(challenges@));
    ids
}

/// The item to store for a new one of a user, with the challenges that
/// are active for its kind of media activated.
pub fn stored_item(
    user: &User,
    item: &NewLibraryItem,
    id: String,
    added_at: String,
    challenges: &Vec<SharedChallenge>,
) -> (stored: LibraryItem)
    ensures
        stored@ == item@.stored(id@, user.id@, added_at@, challenge_ids(challenges@)),
{
    LibraryItem {
        id,
        user_id: user.id.clone(),
        kind: item.kind.clone(),
        title: item.title.clone(),
        author: item.author.clone(),
        added_at,
        completed_at: item.completed_at.clone(),
        favorite: item.favorite,
        activated_challenge_ids: ids_of(challenges),
        translator: copy_optional_text(&item.translator),
    }
}

/// The item to store for a new one of a user, under a new random
/// identifier of `IDENTIFIER_LENGTH` characters and as added at the
/// present time. It unwinds where the clock stands before the epoch.
pub fn create_library_item(
    user: &User,
    item: &NewLibraryItem,
    challenges: &Vec<SharedChallenge>,
) -> (stored: LibraryItem)
    ensures
        stored.id@.len() == IDENTIFIER_LENGTH,
        stored@ == item@.stored(
            stored.id@,
            user.id@,
            stored.added_at@,
            challenge_ids(challenges@),
        ),
{
    stored_item(user, item, fresh_identifier(), now_rfc3339(), challenges)
}

/// The item to store in place of the one under `id`, or none where the
/// user may not change that one: `existing` must be there and be the
/// user's own. The time it was added is left empty, which an update does
/// not write.
pub fn update_library_item(
    user: &User,
    existing: &Option<LibraryItem>,
    id: &str,
    item: &NewLibraryItem,
) -> (stored: Option<LibraryItem>)
    ensures
        optional_item(stored) == if *existing matches Some(found) && found.user_id@ == user.id@ {
            Some(
                item@.stored(id@, user.id@, Seq::<char>::empty(), item@.activated_challenge_ids),
            )
        } else {
            None
        },
{
    if !is_owner(existing, user) {
        return None;
    }
    Some(
        LibraryItem {
            id: id.to_owned(),
            user_id: user.id.clone(),
            kind: item.kind.clone(),
            title: item.title.clone(),
            author: item.author.clone(),
            added_at: String::new(),
            completed_at: item.completed_at.clone(),
            favorite: item.favorite,
            activated_challenge_ids: copy_texts(&item.activated_challenge_ids),
            translator: copy_optional_text(&item.translator),
        },
    )
}

/// The activated challenges of a stored item, which are stored as one text
/// with a comma between each two: none where nothing is stored.
pub fn activated_challenges(stored: Option<&str>) -> (ids: Vec<String>)
    ensures
        texts(ids@) == match stored {
            Some(text) => pieces(text@, ','),
            None => Seq::empty(),
        },
{
    match stored {
        Some(text) => split(text, ','),
        None => Vec::new(),
    }
}

/// The conditions of a search, each with a place for one parameter.
pub open spec fn conditions(filter: LibraryFilterView) -> Seq<Seq<char>> {
    seq!["user_id = ?"@] + (if filter.item_id is Some {
        seq!["l.id = ?"@]
    } else {
        Seq::empty()
    })
}

/// The parameters of a search, in the order of its conditions.
pub open spec fn parameters(filter: LibraryFilterView) -> Seq<Seq<char>> {
    seq![filter.user_id] + (match filter.item_id {
        Some(item_id) => seq![item_id],
        None => Seq::empty(),
    })
}

/// The condition of a search as the text of a `WHERE` clause, its
/// conditions joined by `AND`, and the parameters that fill its places.
pub fn to_sql_params<'a>(filter: &'a LibraryFilter) -> (r: (String, Vec<&'a str>))
    ensures
        r.0@ == joined(conditions(filter@), " AND "@),
        borrowed_texts(r.1@) == parameters(filter@),
{
    let mut conditions: Vec<&str> = Vec::new();
    let mut params: Vec<&str> = Vec::new();
    params.push(filter.user_id.as_str());
    conditions.push("user_id = ?");
    if let Some(item_id) = &filter.item_id {
        params.push(item_id.as_str());
        conditions.push("l.id = ?");
    }
    assert(borrowed_texts(conditions@) =~= self::conditions(filter@));
    assert(borrowed_texts(params@) =~= parameters(filter@));
    (join(&conditions, " AND "), params)
}

} // verus!
