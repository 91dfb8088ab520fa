//! The provider's published signing keys, as a set keyed by key identifier.
use vstd::prelude::*;
use vstd::pervasive::VecAdditionalExecFns;

verus! {

/// A set of verification keys, each under a unique key identifier. Treated
/// as immutable once populated: the verifier only looks keys up in it.
pub struct SigningKeySet {
    entries: Vec<(String, jsonwebtoken::DecodingKey)>,
}

impl SigningKeySet {
    /// The key identifiers the set holds, in insertion order.
    pub closed spec fn kids(&self) -> Seq<Seq<char>> {
        self.entries@.map_values(|p: (String, jsonwebtoken::DecodingKey)| p.0@)
    }

    /// The verification keys the set holds, in the same order as [`Self::kids`]:
    /// the key under an identifier is the one at the identifier's position.
    pub closed spec fn key_seq(&self) -> Seq<jsonwebtoken::DecodingKey> {
        self.entries@.map_values(|p: (String, jsonwebtoken::DecodingKey)| p.1)
    }

    /// Well-formed: every key identifier occurs at most once.
    pub open spec fn wf(&self) -> bool {
        forall|i: int, j: int|
            0 <= i < j < self.kids().len() ==> self.kids()[i] != self.kids()[j]
    }

    /// Whether the set holds a key under the given identifier.
    pub open spec fn has_kid(&self, kid: Seq<char>) -> bool {
        self.kids().contains(kid)
    }

    /// Whether the given key stands in this set under the given identifier.
    pub open spec fn holds_key(&self, kid: Seq<char>, key: jsonwebtoken::DecodingKey) -> bool {
        exists|i: int|
            0 <= i < self.kids().len() && self.kids()[i] == kid && self.key_seq()[i] == key
    }

    /// An empty set.
    pub fn new() -> (s: Self)
        ensures
            s.wf(),
            s.kids() == Seq::<Seq<char>>::empty(),
    {
        SigningKeySet { entries: Vec::new() }
    }

    /// How many keys the set holds.
    pub fn len(&self) -> (n: usize)
        ensures
            n == self.kids().len(),
    {
        self.entries.len()
    }

    /// The position of the given identifier in the set, if any.
    fn index_of(&self, kid: &str) -> (r: Option<usize>)
        ensures
            match r {
                Some(i) => i < self.kids().len() && self.kids()[i as int] == kid@,
                None => !self.has_kid(kid@),
            },
    {
        let mut i: usize = 0;
        while i < self.entries.len()
            invariant
                i <= self.entries.len(),
                forall|j: int| 0 <= j < i ==> self.kids()[j] != kid@,
            decreases self.entries.len() - i,
        {
            if crate::text::str_eq(self.entries[i].0.as_str(), kid) {
                return Some(i);
            }
            i += 1;
        }
        None
    }

    /// Adds a key under the given identifier. A key already held under the
    /// same identifier is replaced by the new one; the identifiers stay
    /// unique either way, and every other identifier keeps its key.
    pub fn insert(&mut self, kid: String, key: jsonwebtoken::DecodingKey)
        requires
            old(self).wf(),
        ensures
            final(self).wf(),
            final(self).has_kid(kid@),
            final(self).holds_key(kid@, key),
            forall|k: Seq<char>|
                k != kid@ ==> (final(self).has_kid(k) <==> old(self).has_kid(k)),
            forall|k: Seq<char>, v: jsonwebtoken::DecodingKey|
                k != kid@ ==> (final(self).holds_key(k, v) <==> old(self).holds_key(k, v)),
            old(self).has_kid(kid@) ==> final(self).kids() == old(self).kids(),
            !old(self).has_kid(kid@) ==> final(self).kids() == old(self).kids().push(kid@),
    {
        let ghost old_kids = self.kids();
        let ghost old_keys = self.key_seq();
        match self.index_of(kid.as_str()) {
            Some(i) => {
                self.entries.set(i, (kid, key));
                proof {
                    assert(self.kids() =~= old_kids);
                    assert(self.key_seq() =~= old_keys.update(i as int, key));
                    assert(self.kids()[i as int] == kid@);
                    assert(self.key_seq()[i as int] == key);
                    assert forall|k: Seq<char>, v: jsonwebtoken::DecodingKey| k != kid@ implies (
                    self.holds_key(k, v) <==> old(self).holds_key(k, v)) by {
                        if self.holds_key(k, v) {
                            let j = choose|j: int|
                                0 <= j < self.kids().len() && self.kids()[j] == k
                                    && self.key_seq()[j] == v;
                            assert(old_kids[j] == k && old_keys[j] == v);
                        }
                        if old(self).holds_key(k, v) {
                            let j = choose|j: int|
                                0 <= j < old_kids.len() && old_kids[j] == k && old_keys[j] == v;
                            assert(self.kids()[j] == k && self.key_seq()[j] == v);
                        }
                    }
                }
            },
            None => {
                self.entries.push((kid, key));
                proof {
                    assert(self.kids() =~= old_kids.push(kid@));
                    assert(self.key_seq() =~= old_keys.push(key));
                    assert(self.kids()[old_kids.len() as int] == kid@);
                    assert(self.key_seq()[old_kids.len() as int] == key);
                    assert forall|k: Seq<char>| k != kid@ implies (self.has_kid(k)
                        <==> old(self).has_kid(k)) by {
                        if self.has_kid(k) {
                            let i = choose|i: int|
                                0 <= i < self.kids().len() && self.kids()[i] == k;
                            assert(i < old_kids.len());
                            assert(old_kids[i] == k);
                        }
                        if old(self).has_kid(k) {
                            let i = choose|i: int|
                                0 <= i < old_kids.len() && old_kids[i] == k;
                            assert(self.kids()[i] == k);
                        }
                    }
                    assert forall|k: Seq<char>, v: jsonwebtoken::DecodingKey| k != kid@ implies (
                    self.holds_key(k, v) <==> old(self).holds_key(k, v)) by {
                        if self.holds_key(k, v) {
                            let j = choose|j: int|
                                0 <= j < self.kids().len() && self.kids()[j] == k
                                    && self.key_seq()[j] == v;
                            assert(j < old_kids.len());
                            assert(old_kids[j] == k && old_keys[j] == v);
                        }
                        if old(self).holds_key(k, v) {
                            let j = choose|j: int|
                                0 <= j < old_kids.len() && old_kids[j] == k && old_keys[j] == v;
                            assert(self.kids()[j] == k && self.key_seq()[j] == v);
                        }
                    }
                }
            },
        }
    }

    /// The verification key held under the given identifier, if any: the very
    /// key stored under that identifier, not another entry's.
    pub fn lookup(&self, kid: &str) -> (r: Option<&jsonwebtoken::DecodingKey>)
        ensures
            r is Some <==> self.has_kid(kid@),
            r matches Some(k) ==> self.holds_key(kid@, *k),
    {
        match self.index_of(kid) {
            Some(i) => {
                proof {
                    assert(self.key_seq()[i as int] == self.entries@[i as int].1);
                }
                Some(&self.entries[i].1)
            },
            None => None,
        }
    }
}

} // verus!
