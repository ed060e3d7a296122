//! The refresh coordinator: a single monotonically increasing generation
//! counter provides cooperative cancellation for overlapping refresh
//! requests. Each request captures its own generation at start; before
//! every costly step and before every emission the captured generation
//! is compared to the live counter, and work whose generation has been
//! superseded is abandoned without emitting anything. Cancellation is
//! advisory: a unit already inside a blocking native call finishes, but
//! its result is discarded.

use vstd::prelude::*;

verus! {

/// The process-wide refresh generation counter.
pub struct RefreshCoordinator {
    pub generation: u64,
}

/// One `begin_refresh` step: the counter advances by one and the new
/// value becomes the request's captured generation.
pub open spec fn spec_begin_step(
    before: RefreshCoordinator,
    after: RefreshCoordinator,
    captured: u64,
) -> bool {
    &&& after.generation == before.generation + 1
    &&& captured == after.generation
}

/// A captured generation is current exactly while the live counter
/// still equals it.
pub open spec fn spec_is_current(c: RefreshCoordinator, captured: u64) -> bool {
    c.generation == captured
}

impl RefreshCoordinator {
    /// Starts before any refresh was requested.
    pub fn new() -> (r: Self)
        ensures
            r.generation == 0,
    {
        RefreshCoordinator { generation: 0 }
    }

    /// Registers a new refresh request: increments the counter and
    /// captures the new value as this request's generation, which is
    /// current immediately and supersedes every earlier one.
    pub fn begin_refresh(&mut self) -> (captured: u64)
        requires
            old(self).generation < u64::MAX,
        ensures
            spec_begin_step(*old(self), *final(self), captured),
            spec_is_current(*final(self), captured),
    {
        self.generation = self.generation + 1;
        self.generation
    }

    /// The checkpoint consulted before each costly step and before each
    /// emission: proceed only while the captured generation is still
    /// current.
    pub fn should_proceed(&self, captured: u64) -> (r: bool)
        ensures
            r == spec_is_current(*self, captured),
    {
        self.generation == captured
    }

    /// Once a later request has begun, an earlier generation can never
    /// be current again: the counter only grows, so no checkpoint lets
    /// superseded work emit anything.
    pub proof fn law_superseded_never_current(c: RefreshCoordinator, g1: u64, g2: u64)
        requires
            g1 < g2 <= c.generation,
        ensures
            !spec_is_current(c, g1),
    {
    }

    /// Two overlapping refresh requests: the one that begins later
    /// captures a strictly larger generation; as soon as it has begun,
    /// the earlier request's checkpoints all fail while the later one's
    /// succeed — only the latest request's results are ever delivered.
    pub proof fn law_overlapping_refreshes(
        c0: RefreshCoordinator,
        c1: RefreshCoordinator,
        c2: RefreshCoordinator,
        g1: u64,
        g2: u64,
    )
        requires
            spec_begin_step(c0, c1, g1),
            spec_begin_step(c1, c2, g2),
        ensures
            g1 < g2,
            !spec_is_current(c2, g1),
            spec_is_current(c2, g2),
    {
    }
}

} // verus!
