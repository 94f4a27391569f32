//! Configuration for one benchmark run.

use vstd::prelude::*;

use crate::time::Duration;

verus! {

/// Immutable configuration for one run: the fixed target frame period, the
/// number of frames to simulate, and the per-frame workload size in work
/// units. A run always simulates at least one frame; a zero frame count is an
/// invalid configuration and is rejected at construction.
#[derive(Debug, Clone, Copy)]
pub struct TestParams {
    target_frame_time: Duration,
    frames_to_simulate: usize,
    workload: usize,
}

impl TestParams {
    #[verifier::type_invariant]
    spec fn inv(self) -> bool {
        self.frames_to_simulate >= 1
    }

    /// The fixed target frame period.
    pub closed spec fn target(self) -> Duration {
        self.target_frame_time
    }

    /// The number of frames the run simulates.
    pub closed spec fn frames(self) -> usize {
        self.frames_to_simulate
    }

    /// The per-frame workload size.
    pub closed spec fn work(self) -> usize {
        self.workload
    }

    /// Builds a configuration, rejecting a zero frame count.
    pub fn new(target_frame_time: Duration, frames_to_simulate: usize, workload: usize) -> (r:
        Option<TestParams>)
        ensures
            frames_to_simulate == 0 <==> r is None,
            r matches Some(p) ==> p.target() == target_frame_time && p.frames()
                == frames_to_simulate && p.work() == workload,
    {
        if frames_to_simulate == 0 {
            None
        } else {
            Some(TestParams { target_frame_time, frames_to_simulate, workload })
        }
    }

    /// The fixed target frame period.
    pub fn target_frame_time(&self) -> (r: Duration)
        ensures
            r == self.target(),
    {
        self.target_frame_time
    }

    /// The number of frames the run simulates; always at least one.
    pub fn frames_to_simulate(&self) -> (r: usize)
        ensures
            r == self.frames(),
            r >= 1,
    {
        proof {
            use_type_invariant(self);
        }
        self.frames_to_simulate
    }

    /// The per-frame workload size.
    pub fn workload(&self) -> (r: usize)
        ensures
            r == self.work(),
    {
        self.workload
    }
}

} // verus!
