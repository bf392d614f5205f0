//! A set of human-readable keys, backed by `ahash::AHashSet<String>`.
//!
//! The hash set itself is outside code; its contents are named by
//! [`allow_set_elems`] and every method the library uses is wrapped
//! with a contract over that name.

use vstd::prelude::*;

verus! {

#[verifier::external_type_specification]
#[verifier::external_body]
#[verifier::reject_recursive_types(T)]
#[verifier::reject_recursive_types(S)]
pub struct ExAHashSet<T, S>(ahash::AHashSet<T, S>);

#[verifier::external_type_specification]
#[verifier::external_body]
pub struct ExAHashRandomState(ahash::RandomState);

/// The set of key texts a hash set holds.
pub uninterp spec fn allow_set_elems(s: ahash::AHashSet<String>) -> Set<Seq<char>>;

/// Relies on ahash::AHashSet::new: creates an empty set.
#[verifier::external_body]
fn ahash_set_new() -> (s: ahash::AHashSet<String>)
    ensures
        allow_set_elems(s) == Set::<Seq<char>>::empty(),
{
    ahash::AHashSet::new()
}

/// Relies on std's HashSet::insert (reached through AHashSet's Deref):
/// after the call the set holds the key; nothing else changes.
#[verifier::external_body]
fn ahash_set_insert(s: &mut ahash::AHashSet<String>, key: String)
    ensures
        allow_set_elems(*final(s)) == allow_set_elems(*old(s)).insert(key@),
{
    s.insert(key);
}

/// Relies on std's HashSet::contains (reached through AHashSet's Deref):
/// membership by string equality.
#[verifier::external_body]
fn ahash_set_contains(s: &ahash::AHashSet<String>, key: &String) -> (r: bool)
    ensures
        r == allow_set_elems(*s).contains(key@),
{
    s.contains(key)
}

/// An allow-list of encoded keys, as the filter stage consumes it.
pub struct AllowList {
    set: ahash::AHashSet<String>,
}

/// The key texts of a sequence's first `n` entries.
spec fn key_set_prefix(keys: Seq<String>, n: int) -> Set<Seq<char>>
    decreases n,
{
    if n <= 0 {
        Set::empty()
    } else {
        key_set_prefix(keys, n - 1).insert(keys[n - 1]@)
    }
}

impl View for AllowList {
    type V = Set<Seq<char>>;

    closed spec fn view(&self) -> Set<Seq<char>> {
        allow_set_elems(self.set)
    }
}

impl AllowList {
    /// An empty allow-list.
    pub fn new() -> (a: AllowList)
        ensures
            a@ == Set::<Seq<char>>::empty(),
    {
        AllowList { set: ahash_set_new() }
    }

    /// Adds one key.
    pub fn insert(&mut self, key: String)
        ensures
            final(self)@ == old(self)@.insert(key@),
    {
        ahash_set_insert(&mut self.set, key);
    }

    /// Whether the list holds the key.
    pub fn contains(&self, key: &String) -> (r: bool)
        ensures
            r == self@.contains(key@),
    {
        ahash_set_contains(&self.set, key)
    }

    /// Builds an allow-list from the configured key texts: it holds a
    /// key exactly when some configured entry reads that way.
    pub fn from_keys(keys: Vec<String>) -> (a: AllowList)
        ensures
            forall|k: Seq<char>|
                a@.contains(k) <==> exists|i: int| 0 <= i < keys@.len() && keys@[i]@ == k,
    {
        let mut a = AllowList::new();
        let n = keys.len();
        let source = keys;
        let mut i: usize = 0;
        while i < n
            invariant
                n == source.len(),
                i <= n,
                a@ == key_set_prefix(source@, i as int),
            decreases n - i,
        {
            let key = source[i].clone();
            a.insert(key);
            i = i + 1;
        }
        proof {
            assert forall|k: Seq<char>|
                a@.contains(k) <==> exists|i: int| 0 <= i < source@.len() && source@[i]@ == k by {
                lemma_key_set_contains(source@, n as int, k);
            }
        }
        a
    }
}

proof fn lemma_key_set_contains(keys: Seq<String>, n: int, k: Seq<char>)
    requires
        0 <= n <= keys.len(),
    ensures
        key_set_prefix(keys, n).contains(k) <==> exists|i: int| 0 <= i < n && keys[i]@ == k,
    decreases n,
{
    if n > 0 {
        lemma_key_set_contains(keys, n - 1, k);
        if keys[n - 1]@ == k {
            assert(key_set_prefix(keys, n).contains(k));
        }
    }
}

} // verus!
