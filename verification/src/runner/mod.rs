pub mod clock;
pub mod engine;
pub mod judge_dir;
pub mod limited_buffer;
pub mod store;
pub mod verdict;

use vstd::prelude::*;

pub use crate::runner::engine::compile;
pub use crate::runner::limited_buffer::LimitedBuffer;
pub use crate::runner::verdict::{RunResult, RunStatus};

verus! {

/// The larger of two sizes.
pub open spec fn max_size(a: nat, b: nat) -> nat {
    if a >= b {
        a
    } else {
        b
    }
}

/// What a memory limiter has seen so far, as plain numbers.
pub struct LimiterState {
    /// The cap on linear memory, in bytes.
    pub limit: nat,
    /// The largest size that was ever asked for, in bytes.
    pub peak: nat,
    /// Whether a request was ever refused.
    pub exceeded: bool,
}

impl LimiterState {
    /// The state of a limiter that has not been asked anything yet.
    pub open spec fn fresh(limit: nat) -> LimiterState {
        LimiterState { limit, peak: 0, exceeded: false }
    }

    /// Whether growing linear memory to `desired` bytes is allowed.
    pub open spec fn allows(self, desired: nat) -> bool {
        desired <= self.limit
    }

    /// The state after a request to grow linear memory to `desired` bytes:
    /// the peak is raised first, then a refusal is latched.
    pub open spec fn grow(self, desired: nat) -> LimiterState {
        LimiterState {
            limit: self.limit,
            peak: max_size(self.peak, desired),
            exceeded: self.exceeded || !self.allows(desired),
        }
    }

    /// The state after a whole series of requests.
    pub open spec fn grow_all(self, requests: Seq<nat>) -> LimiterState
        decreases requests.len(),
    {
        if requests.len() == 0 {
            self
        } else {
            self.grow_all(requests.drop_last()).grow(requests.last())
        }
    }

    /// The latch is set exactly when the peak lies above the cap.
    pub open spec fn consistent(self) -> bool {
        self.exceeded <==> self.peak > self.limit
    }
}

/// A request never lowers the peak, never clears the latch and never changes
/// the cap; it sets the latch exactly when it is refused.
pub proof fn lemma_grow_is_monotone(state: LimiterState, desired: nat)
    ensures
        state.grow(desired).limit == state.limit,
        state.grow(desired).peak >= state.peak,
        state.grow(desired).peak >= desired,
        state.exceeded ==> state.grow(desired).exceeded,
        !state.exceeded ==> (state.grow(desired).exceeded <==> !state.allows(desired)),
        state.consistent() ==> state.grow(desired).consistent(),
{
}

/// After any series of requests to a fresh limiter the peak is the largest
/// size asked for, no request lies above it, and the latch is set exactly
/// when some request lay strictly above the cap; so the peak never exceeds
/// the cap unless a refused request did.
pub proof fn lemma_limiter_history(limit: nat, requests: Seq<nat>)
    ensures
        ({
            let end = LimiterState::fresh(limit).grow_all(requests);
            &&& end.limit == limit
            &&& end.consistent()
            &&& forall|i: int| 0 <= i < requests.len() ==> requests[i] <= end.peak
            &&& (end.peak == 0 || exists|i: int| 0 <= i < requests.len() && requests[i] == end.peak)
            &&& (end.exceeded <==> exists|i: int| 0 <= i < requests.len() && requests[i] > limit)
            &&& (!end.exceeded ==> end.peak <= limit)
        }),
    decreases requests.len(),
{
    if requests.len() > 0 {
        let front = requests.drop_last();
        lemma_limiter_history(limit, front);
        let mid = LimiterState::fresh(limit).grow_all(front);
        let end = mid.grow(requests.last());
        assert forall|i: int| 0 <= i < requests.len() implies requests[i] <= end.peak by {
            if i < front.len() {
                assert(front[i] == requests[i]);
            }
        }
    }
}

/// Accounts for the growth of a guest's linear memory against a fixed cap.
#[derive(Clone, Copy, Debug)]
pub struct MemoryLimiter {
    memory_bytes: usize,
    memory_max_used_bytes: usize,
    memory_limit_exceeded: bool,
}

impl View for MemoryLimiter {
    type V = LimiterState;

    closed spec fn view(&self) -> LimiterState {
        LimiterState {
            limit: self.memory_bytes as nat,
            peak: self.memory_max_used_bytes as nat,
            exceeded: self.memory_limit_exceeded,
        }
    }
}

impl MemoryLimiter {
    /// A limiter with a cap of `memory_bytes` that has seen no request.
    pub fn new(memory_bytes: usize) -> (limiter: Self)
        ensures
            limiter@ == LimiterState::fresh(memory_bytes as nat),
    {
        Self { memory_bytes, memory_max_used_bytes: 0, memory_limit_exceeded: false }
    }

    /// Decides a request to grow linear memory to `desired` bytes: it is
    /// allowed exactly when `desired` is within the cap. The peak is raised
    /// before the decision, and a refusal sets the latch.
    pub fn memory_growing(&mut self, current: usize, desired: usize, maximum: Option<usize>) -> (allow:
        bool)
        ensures
            final(self)@ == old(self)@.grow(desired as nat),
            allow == old(self)@.allows(desired as nat),
    {
        if desired > self.memory_max_used_bytes {
            self.memory_max_used_bytes = desired;
        }
        let allow = desired <= self.memory_bytes;
        if !allow {
            self.memory_limit_exceeded = true;
        }
        allow
    }

    /// Decides a request to grow a table to `desired` elements: it is refused
    /// only where the table's own maximum is given and lies below `desired`.
    /// Tables do not count against the memory cap.
    pub fn table_growing(&mut self, current: usize, desired: usize, maximum: Option<usize>) -> (allow:
        bool)
        ensures
            final(self)@ == old(self)@,
            allow == !(maximum is Some && desired > maximum->0),
    {
        match maximum {
            Some(max) => desired <= max,
            None => true,
        }
    }

    /// The cap, in bytes.
    pub fn memory_limit(&self) -> (n: usize)
        ensures
            n == self@.limit,
    {
        self.memory_bytes
    }

    /// The largest size that was asked for so far, in bytes.
    pub fn peak_memory(&self) -> (n: usize)
        ensures
            n == self@.peak,
    {
        self.memory_max_used_bytes
    }

    /// Whether a request was ever refused.
    pub fn limit_exceeded(&self) -> (b: bool)
        ensures
            b == self@.exceeded,
    {
        self.memory_limit_exceeded
    }
}

} // verus!
