//! The process-wide key cache: populated at most once with a signing-key
//! set, then read on every verification.
//!
//! The cache itself is a plain value with a first-install-wins transition; a
//! composition root wraps it in its single-initialization primitive and asks
//! [`KeyCache::needs_fetch`] before fetching, so a failed fetch installs
//! nothing and the next caller may retry.
use vstd::prelude::*;
use crate::keyset::SigningKeySet;

verus! {

/// Holds the signing-key set once it has been fetched.
pub struct KeyCache {
    set: Option<SigningKeySet>,
}

/// The state of a cache after a set is offered to it: an empty cache takes
/// the set; a populated cache is left exactly as it was.
pub closed spec fn install_result(c: KeyCache, set: SigningKeySet) -> KeyCache {
    if c.populated() {
        c
    } else {
        KeyCache { set: Some(set) }
    }
}

impl KeyCache {
    /// Whether a key set has been installed.
    pub closed spec fn populated(&self) -> bool {
        self.set is Some
    }

    /// The installed key set, if any.
    pub closed spec fn stored(&self) -> Option<SigningKeySet> {
        self.set
    }

    /// Well-formed: an installed key set has unique key identifiers.
    pub open spec fn wf(&self) -> bool {
        self.stored() matches Some(s) ==> s.wf()
    }

    /// An unpopulated cache, the state at process start.
    pub fn new() -> (c: Self)
        ensures
            !c.populated(),
            c.wf(),
    {
        KeyCache { set: None }
    }

    /// Whether a caller has to fetch the key set before verifying.
    pub fn needs_fetch(&self) -> (b: bool)
        ensures
            b == !self.populated(),
    {
        self.set.is_none()
    }

    /// The installed key set, to look an incoming token's key up in.
    pub fn peek(&self) -> (r: Option<&SigningKeySet>)
        ensures
            match r {
                Some(s) => self.stored() == Some(*s),
                None => !self.populated(),
            },
    {
        self.set.as_ref()
    }

    /// Offers a fetched key set to the cache. The first offer populates it;
    /// every later offer leaves the cache untouched, so all callers see the
    /// set the first one installed.
    pub fn install(&mut self, set: SigningKeySet)
        requires
            set.wf(),
            old(self).wf(),
        ensures
            *final(self) == install_result(*old(self), set),
            final(self).wf(),
            final(self).populated(),
            old(self).populated() ==> *final(self) == *old(self),
            !old(self).populated() ==> final(self).stored() == Some(set),
    {
        if self.set.is_none() {
            self.set = Some(set);
        }
    }
}

/// Populate-once: against an empty cache, the first installed key set is the
/// one the cache keeps, and whatever set any later caller offers changes
/// nothing — every caller reads the same set.
pub proof fn lemma_populate_once(c: KeyCache, first: SigningKeySet, later: SigningKeySet)
    requires
        !c.populated(),
    ensures
        install_result(c, first).populated(),
        install_result(c, first).stored() == Some(first),
        install_result(install_result(c, first), later) == install_result(c, first),
{
}

} // verus!
