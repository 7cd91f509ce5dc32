//! Phase sequencing for the GPU simulation step.
//!
//! A step is a strict sequence of compute phases.  The two bin buffers play
//! three roles across one step — raw counters, prefix-sum result, and
//! scatter slot counters — and which physical buffer holds the final offsets
//! depends on the parity of the number of prefix-sum passes.  The types here
//! make that bookkeeping explicit: the parity is a named value, the phase
//! order is a transition function, the particle ping-pong is an index into a
//! pair, and the bind-group cache is keyed so that a stale binding can never
//! be served after buffers are recreated.

use vstd::prelude::*;

verus! {

/// One of the two interchangeable bin-count buffers.
#[derive(Debug, Clone, Copy, PartialEq, Eq, Structural)]
pub enum BinBuffer {
    /// The buffer the counting phase writes into.
    A,
    /// The other buffer of the ping-pong pair.
    B,
}

impl BinBuffer {
    /// The other buffer of the pair.
    pub open spec fn spec_other(self) -> BinBuffer {
        match self {
            BinBuffer::A => BinBuffer::B,
            BinBuffer::B => BinBuffer::A,
        }
    }

    /// The other buffer of the pair.
    pub fn other(self) -> (r: BinBuffer)
        ensures
            r == self.spec_other(),
            r != self,
    {
        match self {
            BinBuffer::A => BinBuffer::B,
            BinBuffer::B => BinBuffer::A,
        }
    }
}

/// Which buffer holds the final bin offsets after the prefix sum: counting
/// writes into A and each pass flips the pair, so the offsets are in A
/// exactly when the number of passes is even.
pub fn offsets_buffer_after(passes: u32) -> (r: BinBuffer)
    ensures
        (r == BinBuffer::A) <==> (passes % 2 == 0),
{
    if passes % 2 == 0 {
        BinBuffer::A
    } else {
        BinBuffer::B
    }
}

/// The buffer the scatter phase may use for its atomic slot counters: the
/// one not holding the offsets.
pub fn slot_counter_buffer_after(passes: u32) -> (r: BinBuffer)
    ensures
        (r == BinBuffer::B) <==> (passes % 2 == 0),
{
    offsets_buffer_after(passes).other()
}

/// The compute phases of one simulation step, in order.
#[derive(Debug, Clone, Copy, PartialEq, Eq, Structural)]
pub enum StepPhase {
    /// Between steps.
    Idle,
    /// Zero the bin counters in buffer A.
    Clear,
    /// Atomically count particles per bin into buffer A.
    Count,
    /// One prefix-sum doubling pass (0-based index).
    Prefix(u32),
    /// Zero the buffer not holding the offsets, for the scatter's slot
    /// counters.
    ClearForSort,
    /// Scatter particles into bin order in the next particle buffers.
    Sort,
    /// Gather forces over the 3x3 bin neighborhood of each particle.
    Forces,
    /// Integrate velocities and positions and apply the boundary.
    Advance,
}

impl StepPhase {
    /// The phase dispatched after `self`, for a step that schedules
    /// `total_passes` prefix-sum passes.
    pub open spec fn spec_next(self, total_passes: u32) -> StepPhase {
        match self {
            StepPhase::Idle => StepPhase::Clear,
            StepPhase::Clear => StepPhase::Count,
            StepPhase::Count => if total_passes == 0 {
                StepPhase::ClearForSort
            } else {
                StepPhase::Prefix(0)
            },
            StepPhase::Prefix(k) => if k + 1 < total_passes {
                StepPhase::Prefix((k + 1) as u32)
            } else {
                StepPhase::ClearForSort
            },
            StepPhase::ClearForSort => StepPhase::Sort,
            StepPhase::Sort => StepPhase::Forces,
            StepPhase::Forces => StepPhase::Advance,
            StepPhase::Advance => StepPhase::Idle,
        }
    }

    /// Advance to the next phase of the step.
    pub fn next(self, total_passes: u32) -> (r: StepPhase)
        ensures
            r == self.spec_next(total_passes),
    {
        match self {
            StepPhase::Idle => StepPhase::Clear,
            StepPhase::Clear => StepPhase::Count,
            StepPhase::Count => {
                if total_passes == 0 {
                    StepPhase::ClearForSort
                } else {
                    StepPhase::Prefix(0)
                }
            },
            StepPhase::Prefix(k) => {
                if k < u32::MAX && k + 1 < total_passes {
                    StepPhase::Prefix(k + 1)
                } else {
                    StepPhase::ClearForSort
                }
            },
            StepPhase::ClearForSort => StepPhase::Sort,
            StepPhase::Sort => StepPhase::Forces,
            StepPhase::Forces => StepPhase::Advance,
            StepPhase::Advance => StepPhase::Idle,
        }
    }
}

/// The dispatch list of one whole step: every phase in order, from the
/// clear to the advance, with one prefix-sum phase per scheduled pass.
/// Consecutive entries follow the transition function, so encoding them
/// in this order into one command buffer is exactly the sequencing the
/// step requires.
pub fn step_schedule(total_passes: u32) -> (r: Vec<StepPhase>)
    requires
        total_passes < 0xfffffff0,
    ensures
        r@.len() == 6 + total_passes,
        r@[0] == StepPhase::Idle.spec_next(total_passes),
        forall|k: int|
            #![trigger r@[k]]
            0 <= k < r@.len() - 1 ==> r@[k + 1] == r@[k].spec_next(total_passes),
        r@[r@.len() - 1] == StepPhase::Advance,
        StepPhase::Advance.spec_next(total_passes) == StepPhase::Idle,
{
    let mut r: Vec<StepPhase> = Vec::new();
    r.push(StepPhase::Clear);
    r.push(StepPhase::Count);
    let mut k: u32 = 0;
    while k < total_passes
        invariant
            k <= total_passes,
            r@.len() == 2 + k,
            r@[0] == StepPhase::Clear,
            r@[1] == StepPhase::Count,
            forall|t: int|
                #![trigger r@[t]]
                0 <= t < r@.len() - 1 ==> r@[t + 1] == r@[t].spec_next(total_passes),
            r@[r@.len() - 1] == if k == 0 {
                StepPhase::Count
            } else {
                StepPhase::Prefix((k - 1) as u32)
            },
        decreases total_passes - k,
    {
        r.push(StepPhase::Prefix(k));
        k = k + 1;
    }
    r.push(StepPhase::ClearForSort);
    r.push(StepPhase::Sort);
    r.push(StepPhase::Forces);
    r.push(StepPhase::Advance);
    r
}

/// The particle double buffer: a pair of buffers addressed by an index,
/// where a step reads from the current buffer and writes to the other, and
/// the index flips exactly once per step.
#[derive(Debug, Clone, Copy, PartialEq, Eq, Structural)]
pub struct PingPong {
    /// Index of the current (read) buffer, 0 or 1.
    pub current: usize,
}

impl PingPong {
    /// A valid index addresses one of the two buffers.
    pub open spec fn wf(self) -> bool {
        self.current < 2
    }

    /// Start with buffer 0 current.
    pub fn new() -> (r: Self)
        ensures
            r.wf(),
            r.current == 0,
    {
        PingPong { current: 0 }
    }

    /// The index of the current (read) buffer.
    pub fn current(&self) -> (r: usize)
        requires
            self.wf(),
        ensures
            r == self.current,
            r < 2,
    {
        self.current
    }

    /// The index of the other (write) buffer.
    pub fn next(&self) -> (r: usize)
        requires
            self.wf(),
        ensures
            r < 2,
            r != self.current,
            r == 1 - self.current,
    {
        1 - self.current
    }

    /// Swap the buffers after a completed step: the buffer just written
    /// becomes current.
    pub fn swap(&mut self)
        requires
            old(self).wf(),
        ensures
            final(self).wf(),
            final(self).current == 1 - old(self).current,
    {
        self.current = 1 - self.current;
    }
}

/// The inputs the spatial bind groups are built from.  When either changes,
/// every bind group referring to the old buffers is stale.
#[derive(Debug, Clone, Copy, PartialEq, Eq, Structural)]
pub struct BindGroupKey {
    /// Number of prefix-sum passes the grid needs (changes with cell size
    /// or world size).
    pub pass_count: u32,
    /// Generation counter of the simulation buffers (bumped whenever they
    /// are recreated).
    pub buffer_generation: u64,
}

/// A cache of bind groups keyed by [`BindGroupKey`].  The staleness check
/// lives here and nowhere else: a caller asks `ensure` for a key and learns
/// whether the cached bind groups must be rebuilt; after buffer teardown it
/// calls `invalidate`, after which nothing is served until the next
/// `ensure`.
pub struct BindGroupCache {
    key: Option<BindGroupKey>,
}

impl BindGroupCache {
    /// The key the cached bind groups were built for, if any are cached.
    pub closed spec fn cached_key(self) -> Option<BindGroupKey> {
        self.key
    }

    /// Start with nothing cached.
    pub fn new() -> (r: Self)
        ensures
            r.cached_key() is None,
    {
        BindGroupCache { key: None }
    }

    /// Whether cached bind groups built for `key` can be served.
    pub fn is_valid_for(&self, key: BindGroupKey) -> (r: bool)
        ensures
            r == (self.cached_key() == Some(key)),
    {
        match self.key {
            Some(k) => k.pass_count == key.pass_count && k.buffer_generation
                == key.buffer_generation,
            None => false,
        }
    }

    /// Make the cache current for `key`.  Returns whether the bind groups
    /// must be (re)built: exactly when the cache held nothing or held bind
    /// groups for another key, so a stale binding is never served.
    pub fn ensure(&mut self, key: BindGroupKey) -> (rebuilt: bool)
        ensures
            final(self).cached_key() == Some(key),
            rebuilt == (old(self).cached_key() != Some(key)),
    {
        let valid = self.is_valid_for(key);
        if !valid {
            self.key = Some(key);
            true
        } else {
            false
        }
    }

    /// Drop the cached bind groups, e.g. after the simulation buffers were
    /// recreated.
    pub fn invalidate(&mut self)
        ensures
            final(self).cached_key() is None,
    {
        self.key = None;
    }
}

} // verus!
