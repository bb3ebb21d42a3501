//! The admission gate: a counting permit pool bounding how many encoder
//! subprocesses run at once.
//!
//! Acquisition never blocks: it either takes a permit or reports
//! exhaustion immediately, signalling backpressure to the caller. The
//! count is the only state shared across sessions; callers serialize
//! access to it.

use vstd::prelude::*;

verus! {

/// A counting permit pool with a fixed capacity.
#[derive(Debug)]
pub struct AdmissionGate {
    limit: usize,
    in_use: usize,
}

impl AdmissionGate {
    /// The configured capacity.
    pub closed spec fn spec_limit(&self) -> nat {
        self.limit as nat
    }

    /// The number of permits currently held.
    pub closed spec fn spec_in_use(&self) -> nat {
        self.in_use as nat
    }

    /// Permits held never exceed the capacity.
    pub open spec fn wf(&self) -> bool {
        self.spec_in_use() <= self.spec_limit()
    }

    /// A fresh gate with the given capacity and no permit held.
    pub fn new(limit: usize) -> (r: AdmissionGate)
        ensures
            r.wf(),
            r.spec_limit() == limit as nat,
            r.spec_in_use() == 0,
    {
        AdmissionGate { limit, in_use: 0 }
    }

    /// The configured capacity.
    pub fn limit(&self) -> (r: usize)
        ensures
            r as nat == self.spec_limit(),
    {
        self.limit
    }

    /// The number of permits still free.
    pub fn available(&self) -> (r: usize)
        requires
            self.wf(),
        ensures
            r as nat == self.spec_limit() - self.spec_in_use(),
    {
        self.limit - self.in_use
    }

    /// Takes a permit if one is free, without ever blocking: succeeds
    /// exactly when fewer permits are held than the capacity.
    pub fn try_acquire(&mut self) -> (r: bool)
        requires
            old(self).wf(),
        ensures
            final(self).wf(),
            final(self).spec_limit() == old(self).spec_limit(),
            r == (old(self).spec_in_use() < old(self).spec_limit()),
            r ==> final(self).spec_in_use() == old(self).spec_in_use() + 1,
            !r ==> final(self).spec_in_use() == old(self).spec_in_use(),
    {
        if self.in_use < self.limit {
            self.in_use = self.in_use + 1;
            true
        } else {
            false
        }
    }

    /// Returns a held permit to the pool.
    pub fn release(&mut self)
        requires
            old(self).wf(),
            old(self).spec_in_use() > 0,
        ensures
            final(self).wf(),
            final(self).spec_limit() == old(self).spec_limit(),
            final(self).spec_in_use() == old(self).spec_in_use() - 1,
    {
        self.in_use = self.in_use - 1;
    }
}

/// The number of successful acquisitions among `attempts` consecutive
/// tries against a fresh gate of capacity `limit`, with no release in
/// between: each try succeeds exactly when all permits are not yet held.
pub open spec fn spec_admitted(limit: nat, attempts: nat) -> nat
    decreases attempts,
{
    if attempts == 0 {
        0
    } else {
        let prev = spec_admitted(limit, (attempts - 1) as nat);
        if prev < limit {
            prev + 1
        } else {
            prev
        }
    }
}

/// Admission is exact: out of any run of consecutive acquisitions
/// against a fresh gate with `limit` permits and no release, exactly
/// the first `limit` succeed — the (limit+1)-th and all later tries
/// fail immediately.
pub proof fn lemma_admission_exact(limit: nat, attempts: nat)
    ensures
        spec_admitted(limit, attempts) == if attempts <= limit {
            attempts
        } else {
            limit
        },
    decreases attempts,
{
    if attempts > 0 {
        lemma_admission_exact(limit, (attempts - 1) as nat);
    }
}

} // verus!
