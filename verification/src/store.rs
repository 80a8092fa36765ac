//! The token store and its owner-scoped lookups.
//!
//! Both lookup paths filter on the lookup key *and* the owner in one
//! predicate, so a caller can never reach a record owned by another
//! identity, even with that identity's exact token name or secret value.

use vstd::prelude::*;

use crate::model::{TokenRecord, TokenView};

verus! {

/// The key a lookup filters by, besides the owner: either the human-chosen
/// token name or the raw secret value. Keys are opaque: exact, case-sensitive
/// match, no normalization.
#[derive(Debug, Clone, PartialEq, Eq)]
pub enum LookupKey {
    ByName(String),
    BySecret(String),
}

/// Mathematical image of a [`LookupKey`].
pub ghost enum LookupKeyView {
    ByName(Seq<char>),
    BySecret(Seq<char>),
}

impl View for LookupKey {
    type V = LookupKeyView;

    open spec fn view(&self) -> LookupKeyView {
        match self {
            LookupKey::ByName(name) => LookupKeyView::ByName(name@),
            LookupKey::BySecret(secret) => LookupKeyView::BySecret(secret@),
        }
    }
}

/// The single lookup predicate: the record must belong to `owner_id` *and*
/// carry the key. The owner conjunct is unconditional, whatever the key
/// kind — this is the invariant that makes cross-identity enumeration
/// impossible.
pub open spec fn key_matches(t: TokenView, owner_id: int, key: LookupKeyView) -> bool {
    t.owner_id == owner_id && match key {
        LookupKeyView::ByName(name) => t.name == name,
        LookupKeyView::BySecret(secret) => t.secret == secret,
    }
}

/// The first record matching the scoped predicate, or `None`. "Absent" is a
/// normal outcome, not a failure.
pub open spec fn spec_find(tokens: Seq<TokenView>, owner_id: int, key: LookupKeyView) -> Option<
    TokenView,
>
    decreases tokens.len(),
{
    if tokens.len() == 0 {
        None
    } else if key_matches(tokens[0], owner_id, key) {
        Some(tokens[0])
    } else {
        spec_find(tokens.drop_first(), owner_id, key)
    }
}

/// If no record before index `i` matches, then the overall result is decided
/// at `i`: none at all if `i` is the length, and `tokens[i]` if it matches.
pub proof fn lemma_spec_find_first_match(
    tokens: Seq<TokenView>,
    owner_id: int,
    key: LookupKeyView,
    i: int,
)
    requires
        0 <= i <= tokens.len(),
        forall|j: int| 0 <= j < i ==> !key_matches(tokens[j], owner_id, key),
    ensures
        i == tokens.len() ==> spec_find(tokens, owner_id, key) is None,
        i < tokens.len() && key_matches(tokens[i], owner_id, key) ==> spec_find(
            tokens,
            owner_id,
            key,
        ) == Some(tokens[i]),
    decreases tokens.len(),
{
    if tokens.len() > 0 && i > 0 {
        let rest = tokens.drop_first();
        assert forall|j: int| 0 <= j < i - 1 implies !key_matches(rest[j], owner_id, key) by {
            assert(rest[j] == tokens[j + 1]);
        }
        lemma_spec_find_first_match(rest, owner_id, key, i - 1);
        if i < tokens.len() {
            assert(rest[i - 1] == tokens[i]);
        }
    }
}

/// Whatever a lookup returns, it is a record of the store, it carries the
/// key, and it belongs to the requesting owner — never to anyone else.
pub proof fn lemma_find_scopes_to_owner(tokens: Seq<TokenView>, owner_id: int, key: LookupKeyView)
    ensures
        spec_find(tokens, owner_id, key) matches Some(t) ==> key_matches(t, owner_id, key)
            && t.owner_id == owner_id && tokens.contains(t),
    decreases tokens.len(),
{
    if tokens.len() > 0 && !key_matches(tokens[0], owner_id, key) {
        let rest = tokens.drop_first();
        lemma_find_scopes_to_owner(rest, owner_id, key);
        match spec_find(tokens, owner_id, key) {
            Some(t) => {
                let j = choose|j: int| 0 <= j < rest.len() && rest[j] == t;
                assert(tokens[j + 1] == t);
            },
            None => {},
        }
    }
}

/// If no record of `owner_id` carries the key, the lookup is absent — records
/// of other identities carrying the key change nothing.
pub proof fn lemma_find_absent(tokens: Seq<TokenView>, owner_id: int, key: LookupKeyView)
    requires
        forall|i: int|
            0 <= i < tokens.len() && tokens[i].owner_id == owner_id ==> !key_matches(
                tokens[i],
                owner_id,
                key,
            ),
    ensures
        spec_find(tokens, owner_id, key) is None,
{
    assert forall|i: int| 0 <= i < tokens.len() implies !key_matches(tokens[i], owner_id, key) by {
        if tokens[i].owner_id == owner_id {
            assert(!key_matches(tokens[i], owner_id, key));
        }
    }
    lemma_spec_find_first_match(tokens, owner_id, key, tokens.len() as int);
}

/// An absent lookup is honest: when `spec_find` returns nothing, no record
/// of the store matches the scoped predicate at all.
pub proof fn lemma_find_none_means_no_match(
    tokens: Seq<TokenView>,
    owner_id: int,
    key: LookupKeyView,
)
    ensures
        spec_find(tokens, owner_id, key) is None ==> forall|i: int|
            0 <= i < tokens.len() ==> !key_matches(tokens[i], owner_id, key),
    decreases tokens.len(),
{
    if tokens.len() > 0 && !key_matches(tokens[0], owner_id, key) {
        let rest = tokens.drop_first();
        lemma_find_none_means_no_match(rest, owner_id, key);
        if spec_find(tokens, owner_id, key) is None {
            assert forall|i: int| 0 <= i < tokens.len() implies !key_matches(
                tokens[i],
                owner_id,
                key,
            ) by {
                if i > 0 {
                    assert(tokens[i] == rest[i - 1]);
                }
            }
        }
    }
}

/// The invariant maintained by out-of-scope issuance: token names are unique
/// per owner. Not globally — two identities may both own a token of the same
/// name.
pub open spec fn names_unique_per_owner(tokens: Seq<TokenView>) -> bool {
    forall|i: int, j: int|
        0 <= i < tokens.len() && 0 <= j < tokens.len() && i != j && tokens[i].owner_id
            == tokens[j].owner_id ==> tokens[i].name != tokens[j].name
}

/// Under the issuance invariant, at most one record can match a name lookup:
/// what the lookup returns is the only record carrying the scoped predicate,
/// and an absent result means no record carries it.
pub proof fn lemma_at_most_one_name_match(tokens: Seq<TokenView>, owner_id: int, name: Seq<char>)
    requires
        names_unique_per_owner(tokens),
    ensures
        (match spec_find(tokens, owner_id, LookupKeyView::ByName(name)) {
            Some(t) => forall|i: int|
                0 <= i < tokens.len() && key_matches(
                    tokens[i],
                    owner_id,
                    LookupKeyView::ByName(name),
                ) ==> tokens[i] == t,
            None => forall|i: int|
                0 <= i < tokens.len() ==> !key_matches(
                    tokens[i],
                    owner_id,
                    LookupKeyView::ByName(name),
                ),
        }),
{
    let key = LookupKeyView::ByName(name);
    lemma_find_none_means_no_match(tokens, owner_id, key);
    lemma_find_scopes_to_owner(tokens, owner_id, key);
    match spec_find(tokens, owner_id, key) {
        Some(t) => {
            let j = choose|j: int| 0 <= j < tokens.len() && tokens[j] == t;
            assert forall|i: int|
                0 <= i < tokens.len() && key_matches(tokens[i], owner_id, key) implies tokens[i]
                == t by {
                if i != j {
                    assert(tokens[i].owner_id == tokens[j].owner_id);
                    assert(tokens[i].name == name && tokens[j].name == name);
                }
            }
        },
        None => {},
    }
}

/// The table of token records, read through owner-scoped lookups. Stands at
/// the storage boundary: records are created and destroyed by out-of-scope
/// issuance and revocation; this core only reads.
#[derive(Debug, Clone, PartialEq, Eq)]
pub struct TokenStore {
    pub records: Vec<TokenRecord>,
}

impl View for TokenStore {
    type V = Seq<TokenView>;

    open spec fn view(&self) -> Seq<TokenView> {
        self.records@.map_values(|t: TokenRecord| t@)
    }
}

/// Exact, case-sensitive match of one record against owner and key, in a
/// single conjunction.
fn record_matches(t: &TokenRecord, owner_id: i64, key: &LookupKey) -> (b: bool)
    ensures
        b == key_matches(t@, owner_id as int, key@),
{
    match key {
        LookupKey::ByName(name) => t.owner_id == owner_id && t.name == *name,
        LookupKey::BySecret(secret) => t.owner_id == owner_id && t.secret == *secret,
    }
}

impl TokenStore {
    /// Fetch at most one record matching the scoped predicate, or none.
    pub fn find_scoped(&self, owner_id: i64, key: &LookupKey) -> (r: Option<&TokenRecord>)
        ensures
            match r {
                Some(t) => spec_find(self@, owner_id as int, key@) == Some(t@),
                None => spec_find(self@, owner_id as int, key@) is None,
            },
    {
        let n = self.records.len();
        let mut i: usize = 0;
        while i < n
            invariant
                n == self.records.len(),
                i <= n,
                forall|j: int| 0 <= j < i ==> !key_matches(self@[j], owner_id as int, key@),
            decreases n - i,
        {
            let t = &self.records[i];
            if record_matches(t, owner_id, key) {
                proof {
                    lemma_spec_find_first_match(self@, owner_id as int, key@, i as int);
                }
                return Some(t);
            }
            i = i + 1;
        }
        proof {
            lemma_spec_find_first_match(self@, owner_id as int, key@, n as int);
        }
        None
    }

    /// Lookup by human-chosen name, scoped to `owner_id`.
    pub fn find_by_name(&self, owner_id: i64, name: &String) -> (r: Option<&TokenRecord>)
        ensures
            match r {
                Some(t) => spec_find(self@, owner_id as int, LookupKeyView::ByName(name@)) == Some(
                    t@,
                ),
                None => spec_find(self@, owner_id as int, LookupKeyView::ByName(name@)) is None,
            },
    {
        let key = LookupKey::ByName(name.clone());
        self.find_scoped(owner_id, &key)
    }

    /// Lookup by raw secret value, scoped to `owner_id`.
    pub fn find_by_secret(&self, owner_id: i64, secret: &String) -> (r: Option<&TokenRecord>)
        ensures
            match r {
                Some(t) => spec_find(self@, owner_id as int, LookupKeyView::BySecret(secret@))
                    == Some(t@),
                None => spec_find(
                    self@,
                    owner_id as int,
                    LookupKeyView::BySecret(secret@),
                ) is None,
            },
    {
        let key = LookupKey::BySecret(secret.clone());
        self.find_scoped(owner_id, &key)
    }
}

} // verus!
