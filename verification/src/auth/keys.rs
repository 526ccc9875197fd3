//! The identity provider's current signing keys, as fetched once and
//! consulted on every request.

use jsonwebtoken::jwk::JwkSet;
use vstd::prelude::*;

use crate::json::json_text;
use crate::json::text_member;
use crate::text::optional_text;
use crate::text::optional_texts;
use crate::text::same;

verus! {

/// One published key.
pub struct SigningKey {
    /// The identifier that the key is filed under.
    pub kid: Option<String>,
    /// The key as the provider published it, a JSON document.
    pub document: String,
}

pub struct SigningKeyView {
    pub kid: Option<Seq<char>>,
    pub document: Seq<char>,
}

impl View for SigningKey {
    type V = SigningKeyView;

    open spec fn view(&self) -> SigningKeyView {
        SigningKeyView {
            kid: optional_text(self.kid),
            document: self.document@,
        }
    }
}

/// The key set of one fetch. It is replaced as a whole, never changed.
pub struct SigningKeySet {
    keys: Vec<SigningKey>,
}

/// The keys of a key set document, each as a JSON document of its own, in
/// the order of the set: what `serde_json` reads as a
/// `jsonwebtoken::jwk::JwkSet` and writes back key by key. None where the
/// text is no well-formed key set.
pub uninterp spec fn published_keys(text: Seq<char>) -> Option<Seq<Seq<char>>>;

/// `serde_json::from_str` to a `jsonwebtoken::jwk::JwkSet`, then
/// `serde_json::to_string` on each of its keys.
#[verifier::external_body]
fn split_key_set(text: &str) -> (documents: Option<Vec<String>>)
    ensures
        optional_texts(documents) == published_keys(text@),
{
    let set: JwkSet = serde_json::from_str(text).ok()?;
    set.keys.iter().map(|key| serde_json::to_string(key).ok()).collect()
}

/// A key as it is filed: under the identifier that its document holds.
pub open spec fn filed(document: Seq<char>) -> SigningKeyView {
    SigningKeyView { kid: json_text(document, "kid"@), document }
}

/// The position of the first key filed under `kid`.
pub open spec fn first_with_id(keys: Seq<SigningKeyView>, kid: Seq<char>) -> Option<int>
    decreases keys.len(),
{
    if keys.len() == 0 {
        None
    } else if keys[0].kid == Some(kid) {
        Some(0)
    } else {
        match first_with_id(keys.drop_first(), kid) {
            Some(i) => Some(i + 1),
            None => None,
        }
    }
}

/// `first_with_id` finds a key filed under `kid`, and none stands before it.
pub proof fn lemma_first_with_id(keys: Seq<SigningKeyView>, kid: Seq<char>)
    ensures
        match first_with_id(keys, kid) {
            Some(i) => 0 <= i < keys.len() && keys[i].kid == Some(kid) && forall|j: int|
                0 <= j < i ==> (#[trigger] keys[j]).kid != Some(kid),
            None => forall|j: int| 0 <= j < keys.len() ==> (#[trigger] keys[j]).kid != Some(kid),
        },
    decreases keys.len(),
{
    if keys.len() > 0 && keys[0].kid != Some(kid) {
        let rest = keys.drop_first();
        lemma_first_with_id(rest, kid);
        assert(forall|j: int| 0 < j < keys.len() ==> keys[j] == rest[j - 1]);
    }
}

impl View for SigningKeySet {
    type V = Seq<SigningKeyView>;

    closed spec fn view(&self) -> Seq<SigningKeyView> {
        self.keys@.map_values(|key: SigningKey| key@)
    }
}

impl SigningKeySet {
    /// Reads a key set document and files each key under its own key
    /// identifier. None where the text is no well-formed key set.
    pub fn parse(text: &str) -> (parsed: Option<SigningKeySet>)
        ensures
            match parsed {
                Some(set) => published_keys(text@) matches Some(documents) && set@
                    == documents.map_values(|document: Seq<char>| filed(document)),
                None => published_keys(text@) is None,
            },
    {
        let documents = match split_key_set(text) {
            Some(documents) => documents,
            None => return None,
        };
        let ghost published = crate::text::texts(documents@);
        let mut keys: Vec<SigningKey> = Vec::new();
        for document in it: documents
            invariant
                published == crate::text::texts(it.seq()),
                keys.len() == it.index(),
                forall|j: int| 0 <= j < keys.len() ==> (#[trigger] keys[j])@ == filed(published[j]),
        {
            let kid = text_member(document.as_str(), "kid");
            keys.push(SigningKey { kid, document });
        }
        let set = SigningKeySet { keys };
        assert(set@ =~= published.map_values(|document: Seq<char>| filed(document)));
        Some(set)
    }

    /// The number of keys.
    pub fn len(&self) -> (n: usize)
        ensures
            n == self@.len(),
    {
        self.keys.len()
    }

    /// The first key filed under `kid`, or none.
    pub fn find_by_key_id(&self, kid: &str) -> (found: Option<&SigningKey>)
        ensures
            match found {
                Some(key) => first_with_id(self@, kid@) matches Some(i) && key@ == self@[i],
                None => first_with_id(self@, kid@) is None,
            },
            found is Some <==> exists|i: int|
                0 <= i < self@.len() && (#[trigger] self@[i]).kid == Some(kid@),
            found matches Some(key) ==> key.kid matches Some(id) && id@ == kid@,
    {
        proof {
            lemma_first_with_id(self@, kid@);
        }
        let mut i: usize = 0;
        assert(self@.skip(0) =~= self@);
        while i < self.keys.len()
            invariant
                i <= self.keys.len(),
                first_with_id(self@, kid@) == match first_with_id(self@.skip(i as int), kid@) {
                    Some(k) => Some(k + i),
                    None => None,
                },
            decreases self.keys.len() - i,
        {
            let key = &self.keys[i];
            let hit = match &key.kid {
                Some(id) => same(id.as_str(), kid),
                None => false,
            };
            proof {
                let tail = self@.skip(i as int);
                assert(tail[0] == key@);
                assert(tail.drop_first() == self@.skip(i + 1));
            }
            if hit {
                return Some(key);
            }
            i += 1;
        }
        None
    }
}

} // verus!
