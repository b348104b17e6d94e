use std::sync::atomic::{AtomicU32, Ordering};
use vstd::prelude::*;

verus! {

/// Represents the ID of a WASI calling thread.
///
/// A valid identity is at least 1; the value 0 stands for "not assigned yet".
#[derive(Debug, Default, Clone, Copy, PartialEq, Eq, Structural, PartialOrd, Ord, Hash)]
pub struct WasiCallingId(pub u32);

impl WasiCallingId {
    /// The plain integer of this identity.
    pub fn raw(&self) -> (r: u32)
        ensures
            r == self.0,
    {
        self.0
    }

    /// Advances this identity by one and returns the new value.
    pub fn inc(&mut self) -> (r: WasiCallingId)
        requires
            old(self).0 < u32::MAX,
        ensures
            final(self).0 == old(self).0 + 1,
            r == *final(self),
    {
        self.0 = self.0 + 1;
        *self
    }
}

impl From<u32> for WasiCallingId {
    fn from(id: u32) -> (r: Self) {
        WasiCallingId(id)
    }
}

impl vstd::std_specs::convert::FromSpecImpl<u32> for WasiCallingId {
    open spec fn obeys_from_spec() -> bool {
        true
    }

    open spec fn from_spec(id: u32) -> Self {
        WasiCallingId(id)
    }
}

impl From<WasiCallingId> for u32 {
    fn from(t: WasiCallingId) -> (r: u32) {
        t.0
    }
}

impl vstd::std_specs::convert::FromSpecImpl<WasiCallingId> for u32 {
    open spec fn obeys_from_spec() -> bool {
        true
    }

    open spec fn from_spec(t: WasiCallingId) -> u32 {
        t.0
    }
}

/// The process-wide source of fresh calling identities.
///
/// It counts the identities handed out so far. An identity is claimed by a
/// single compare-and-exchange of the count `c` to `c + 1`, and the claimed
/// identity is `c + 1`. That no identity is issued twice, whichever threads
/// race for it, rests on the atomic's compare-and-exchange leaving each value
/// of the count at most once; it is not proved here, since the count is not
/// visible to the proofs. When the count reaches `u32::MAX` the seed is
/// exhausted and issues nothing more.
pub struct CallerIdSeed {
    issued: AtomicU32,
}

/// What one attempt to claim an identity came to.
#[derive(Debug, Clone, Copy, PartialEq, Eq, Structural)]
pub enum Claim {
    /// The exchange succeeded and this identity is ours.
    Issued(WasiCallingId),
    /// No identity can be claimed.
    Exhausted,
    /// Another thread moved the count on, to this value; try again from it.
    Retry(u32),
}

/// The count to propose after `seen`, or `None` when `seen` is the last one.
pub fn next_count(seen: u32) -> (r: Option<u32>)
    ensures
        seen < u32::MAX ==> r == Some((seen + 1) as u32),
        seen == u32::MAX ==> r is None,
{
    if seen == u32::MAX {
        None
    } else {
        Some(seen + 1)
    }
}

/// What an exchange of the count from `seen` to `seen + 1` came to:
/// on success the identity `seen + 1` is claimed; on failure the count that
/// the exchange reported is retried from if it grew, and otherwise the seed
/// gives up, since a count that only grows cannot have fallen back.
pub fn claim_after(seen: u32, exchanged: Result<u32, u32>) -> (r: Claim)
    requires
        seen < u32::MAX,
    ensures
        exchanged is Ok ==> r == Claim::Issued(WasiCallingId((seen + 1) as u32)),
        exchanged matches Err(now) ==> (now > seen ==> r == Claim::Retry(now)) && (now <= seen
            ==> r == Claim::Exhausted),
{
    match exchanged {
        Ok(_) => Claim::Issued(WasiCallingId(seen + 1)),
        Err(now) => {
            if now > seen {
                Claim::Retry(now)
            } else {
                Claim::Exhausted
            }
        },
    }
}

impl CallerIdSeed {
    /// A seed that has issued nothing: its first identity is 1.
    pub fn new() -> (r: CallerIdSeed) {
        CallerIdSeed { issued: AtomicU32::new(0) }
    }

    /// Claims a fresh identity. `None` when every `u32` identity is taken,
    /// and also when the exchange reports a count that did not grow, which a
    /// count that only grows never does.
    pub fn draw(&self) -> (r: Option<WasiCallingId>)
        ensures
            r matches Some(id) ==> id.0 >= 1,
    {
        let mut seen: u32 = self.issued.load(Ordering::Acquire);
        loop
            decreases u32::MAX - seen,
        {
            let next = match next_count(seen) {
                Some(next) => next,
                None => {
                    return None;
                },
            };
            let exchanged = self.issued.compare_exchange(
                seen,
                next,
                Ordering::AcqRel,
                Ordering::Acquire,
            );
            match claim_after(seen, exchanged) {
                Claim::Issued(id) => {
                    return Some(id);
                },
                Claim::Exhausted => {
                    return None;
                },
                Claim::Retry(now) => {
                    seen = now;
                },
            }
        }
    }
}

/// The identity cached for one native thread: 0 until one is assigned.
#[derive(Debug, Default, Clone, Copy, PartialEq, Eq, Structural)]
pub struct CallerIdCache {
    pub id: u32,
}

impl CallerIdCache {
    /// A cache with no identity assigned.
    pub fn new() -> (r: CallerIdCache)
        ensures
            r.id == 0,
    {
        CallerIdCache { id: 0 }
    }
}

/// What one identity query may do to a thread's cache: a cache that holds an
/// identity is kept and answered from; an empty one is filled with a fresh
/// identity (at least 1) and answered with it, or stays empty and the query
/// yields nothing when the seed is exhausted.
pub open spec fn caller_id_step(
    before: CallerIdCache,
    after: CallerIdCache,
    r: Option<WasiCallingId>,
) -> bool {
    if before.id != 0 {
        after == before && r == Some(WasiCallingId(before.id))
    } else {
        match r {
            Some(id) => id.0 >= 1 && after.id == id.0,
            None => after == before,
        }
    }
}

/// Returns the identity of the thread that owns `cache`, drawing one from
/// `seed` on the thread's first query.
pub fn current_caller_id(
    cache: &mut CallerIdCache,
    seed: &CallerIdSeed,
) -> (r: Option<WasiCallingId>)
    ensures
        caller_id_step(*old(cache), *final(cache), r),
{
    if cache.id == 0 {
        match seed.draw() {
            Some(id) => {
                cache.id = id.0;
                Some(id)
            },
            None => None,
        }
    } else {
        Some(WasiCallingId(cache.id))
    }
}

/// Asking twice on one thread gives the same identity both times, and the
/// second query leaves the cache as the first left it.
pub proof fn lemma_caller_id_stable(
    c0: CallerIdCache,
    c1: CallerIdCache,
    c2: CallerIdCache,
    r1: Option<WasiCallingId>,
    r2: Option<WasiCallingId>,
)
    requires
        caller_id_step(c0, c1, r1),
        caller_id_step(c1, c2, r2),
        r1 is Some,
    ensures
        r2 == r1,
        c2 == c1,
        r1->Some_0.0 >= 1,
{
}

} // verus!
