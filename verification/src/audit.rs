//! A ledger of native destroy calls.
//!
//! Consuming `release` methods already make a second release of the same
//! wrapper impossible. This ledger is the other half of the discipline: a
//! shim that records every destroy call it performs can check, before
//! performing one, that the handle has not been destroyed already. A ledger
//! only ever grows by fresh handles, so it never holds the same handle
//! twice.

use vstd::prelude::*;

verus! {

/// The destroy calls performed so far, in order.
#[derive(Debug)]
pub struct ReleaseLog {
    destroyed: Vec<u64>,
}

impl ReleaseLog {
    /// The recorded handles, in the order they were destroyed.
    pub closed spec fn spec_destroyed(&self) -> Seq<u64> {
        self.destroyed@
    }

    /// No handle is recorded twice: every recorded destroy was the only one
    /// for its handle.
    pub open spec fn exactly_once(&self) -> bool {
        forall|i: int, j: int|
            0 <= i < self.spec_destroyed().len() && 0 <= j < self.spec_destroyed().len()
                && self.spec_destroyed()[i] == self.spec_destroyed()[j] ==> i == j
    }

    /// An empty ledger.
    pub fn new() -> (r: Self)
        ensures
            r.spec_destroyed().len() == 0,
            r.exactly_once(),
    {
        Self { destroyed: Vec::new() }
    }

    /// Whether a handle has already been destroyed.
    pub fn contains(&self, handle: u64) -> (r: bool)
        ensures
            r == self.spec_destroyed().contains(handle),
    {
        let mut i: usize = 0;
        while i < self.destroyed.len()
            invariant
                i <= self.spec_destroyed().len(),
                forall|j: int| 0 <= j < i ==> self.spec_destroyed()[j] != handle,
            decreases self.spec_destroyed().len() - i,
        {
            if self.destroyed[i] == handle {
                assert(self.spec_destroyed()[i as int] == handle);
                return true;
            }
            i += 1;
        }
        assert(!self.spec_destroyed().contains(handle)) by {
            assert(forall|j: int| 0 <= j < self.spec_destroyed().len()
                ==> self.spec_destroyed()[j] != handle);
        };
        false
    }

    /// Record one destroy call. The record is taken exactly when the handle
    /// is fresh; a repeated handle is refused and the ledger is unchanged,
    /// so a ledger that starts exactly-once stays exactly-once.
    pub fn record_destroy(&mut self, handle: u64) -> (fresh: bool)
        ensures
            fresh == !old(self).spec_destroyed().contains(handle),
            fresh ==> final(self).spec_destroyed() == old(self).spec_destroyed().push(handle),
            !fresh ==> final(self).spec_destroyed() == old(self).spec_destroyed(),
            old(self).exactly_once() ==> final(self).exactly_once(),
    {
        if self.contains(handle) {
            false
        } else {
            self.destroyed.push(handle);
            proof {
                let s_old = old(self).spec_destroyed();
                let s_new = self.spec_destroyed();
                if old(self).exactly_once() {
                    assert forall|i: int, j: int|
                        0 <= i < s_new.len() && 0 <= j < s_new.len() && s_new[i] == s_new[j]
                            implies i == j by {
                        if i < s_old.len() && j < s_old.len() {
                        } else if i == s_old.len() && j < s_old.len() {
                            assert(s_old[j] == handle);
                            assert(s_old.contains(handle));
                        } else if j == s_old.len() && i < s_old.len() {
                            assert(s_old[i] == handle);
                            assert(s_old.contains(handle));
                        }
                    };
                }
            }
            true
        }
    }

    /// Number of destroys recorded.
    pub fn len(&self) -> (r: usize)
        ensures
            r == self.spec_destroyed().len(),
    {
        self.destroyed.len()
    }
}

} // verus!
