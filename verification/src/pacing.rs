//! The four pacing algorithms, as state machines.
//!
//! Each algorithm decides, frame by frame, how to keep the loop on its target
//! cadence; the waiting itself — running the workload, sleeping, spinning or
//! yielding, and reading the monotonic clock — is performed by a driver that
//! feeds the machine clock readings and workload durations and obeys the step
//! it is handed back. Separating the decisions from the waits keeps every
//! decision verified and lets the same machines be driven by a simulated
//! clock.
//!
//! The four strategies differ in how they treat drift:
//! - [`Loop0`] paces each frame relative to its own start, so overruns
//!   accumulate: there is no catch-up.
//! - [`Loop1`] advances one absolute schedule by exactly one target period
//!   per frame, so an overrun is made up by the following frames.
//! - [`Loop2`] banks elapsed real time in an accumulator and runs one frame
//!   per whole target period banked, so one long interval can pay for several
//!   frames and a short one for none.
//! - [`Loop3`] keeps an absolute schedule but re-advances it past "now" after
//!   every frame, dropping missed periods instead of catching up.
//!
//! [`Loop0`] and [`Loop1`] sleep away the remaining time in re-measured
//! chunks while more than [`SLEEP_THRESHOLD_NANOS`] remains, then busy-spin,
//! because a sleep cannot reliably hit a sub-millisecond target. [`Loop3`]
//! never sleeps: it yields cooperatively until the schedule is reached.

use vstd::prelude::*;

use crate::params::TestParams;
use crate::time::Duration;
use crate::time::Instant;

verus! {

/// Below this many nanoseconds of remaining wait, sleeping is too coarse and
/// the pacing switches to a busy spin.
pub const SLEEP_THRESHOLD_NANOS: u64 = 1_000_000;

/// What the driver must do next while pacing out the rest of a frame.
#[derive(Debug, Clone, Copy, PartialEq, Eq, Structural)]
pub enum PaceStep {
    /// Block the thread for the given remaining time, then report a fresh
    /// clock reading.
    Sleep(Duration),
    /// Busy-spin: report a fresh clock reading immediately.
    Spin,
    /// Yield the thread cooperatively, then report a fresh clock reading.
    Yield,
    /// The frame is over; the machine is ready for the next frame, or done.
    FrameDone,
}

/// Where a frame-by-frame machine stands.
enum Phase {
    /// Waiting for the driver to run the next frame's workload.
    NeedWork,
    /// Pacing out the remainder of the current frame.
    Pacing,
    /// All frames are recorded.
    Done,
}

/// Pacing relative to each frame's own start ("sleep then spin").
///
/// Every frame's deadline is one target period after that frame's start, so
/// systematic overshoot is never made up: the run as a whole lags by the sum
/// of all per-frame overshoots.
pub struct Loop0 {
    target: Duration,
    frames: usize,
    times: Vec<Duration>,
    frame_start: Instant,
    phase: Phase,
}

impl Loop0 {
    #[verifier::type_invariant]
    spec fn inv(self) -> bool {
        &&& self.frames >= 1
        &&& match self.phase {
            Phase::NeedWork => self.times@.len() < self.frames,
            Phase::Pacing => self.times@.len() <= self.frames,
            Phase::Done => self.times@.len() == self.frames,
        }
    }

    /// The target frame period.
    pub closed spec fn target(self) -> Duration {
        self.target
    }

    /// How many frames the run simulates.
    pub closed spec fn frames(self) -> usize {
        self.frames
    }

    /// The workload durations recorded so far, in frame order.
    pub closed spec fn times(self) -> Seq<Duration> {
        self.times@
    }

    /// The start instant of the frame currently being paced.
    pub closed spec fn frame_start(self) -> Instant {
        self.frame_start
    }

    /// The machine is waiting for the next frame's workload.
    pub closed spec fn ready(self) -> bool {
        self.phase is NeedWork
    }

    /// The machine is pacing out the rest of the current frame.
    pub closed spec fn pacing(self) -> bool {
        self.phase is Pacing
    }

    /// All frames are recorded.
    pub closed spec fn done(self) -> bool {
        self.phase is Done
    }

    /// A machine ready to run the first frame.
    pub fn new(params: &TestParams) -> (m: Loop0)
        ensures
            m.target() == params.target(),
            m.frames() == params.frames(),
            m.times().len() == 0,
            m.ready(),
    {
        Loop0 {
            target: params.target_frame_time(),
            frames: params.frames_to_simulate(),
            times: Vec::new(),
            frame_start: Instant::new(0),
            phase: Phase::NeedWork,
        }
    }

    /// Records one frame: the driver read `frame_start` from the clock, ran
    /// the workload, and measured it at `work`. Pacing of this frame is
    /// relative to `frame_start`.
    pub fn record_frame(&mut self, frame_start: Instant, work: Duration)
        requires
            old(self).ready(),
        ensures
            final(self).target() == old(self).target(),
            final(self).frames() == old(self).frames(),
            final(self).times() == old(self).times().push(work),
            final(self).frame_start() == frame_start,
            final(self).pacing(),
    {
        proof {
            use_type_invariant(&*self);
        }
        let mut ts: Vec<Duration> = Vec::new();
        std::mem::swap(&mut ts, &mut self.times);
        ts.push(work);
        *self = Loop0 {
            target: self.target,
            frames: self.frames,
            times: ts,
            frame_start,
            phase: Phase::Pacing,
        };
    }

    /// Decides the next pacing step from a fresh clock reading. The frame is
    /// over once a full target period has elapsed since its start; before
    /// that the driver sleeps while more than the threshold remains, and
    /// spins for the rest.
    pub fn pace(&mut self, now: Instant) -> (step: PaceStep)
        requires
            old(self).pacing(),
            old(self).frame_start()@ <= now@,
        ensures
            final(self).target() == old(self).target(),
            final(self).frames() == old(self).frames(),
            final(self).times() == old(self).times(),
            final(self).frame_start() == old(self).frame_start(),
            ({
                let elapsed: int = now@ - old(self).frame_start()@;
                let tgt: int = old(self).target()@;
                let over: bool = elapsed >= tgt;
                let remaining: int = tgt - elapsed;
                &&& (over ==> {
                    &&& step == PaceStep::FrameDone
                    &&& !final(self).pacing()
                    &&& (final(self).done() <==> old(self).times().len() == old(self).frames())
                    &&& (final(self).ready() <==> old(self).times().len() < old(self).frames())
                })
                &&& (!over && remaining > SLEEP_THRESHOLD_NANOS ==> {
                    &&& *final(self) == *old(self)
                    &&& (step matches PaceStep::Sleep(rem) && rem@ == remaining)
                })
                &&& (!over && remaining <= SLEEP_THRESHOLD_NANOS ==> {
                    &&& *final(self) == *old(self)
                    &&& step == PaceStep::Spin
                })
            }),
    {
        proof {
            use_type_invariant(&*self);
        }
        let elapsed = now.duration_since(&self.frame_start);
        if elapsed.lt(&self.target) {
            let rem = self.target.checked_sub(&elapsed).unwrap();
            if crate::time::from_nanos(SLEEP_THRESHOLD_NANOS).lt(&rem) {
                PaceStep::Sleep(rem)
            } else {
                PaceStep::Spin
            }
        } else {
            let mut ts: Vec<Duration> = Vec::new();
            std::mem::swap(&mut ts, &mut self.times);
            let phase = if ts.len() == self.frames {
                Phase::Done
            } else {
                Phase::NeedWork
            };
            *self = Loop0 {
                target: self.target,
                frames: self.frames,
                times: ts,
                frame_start: self.frame_start,
                phase,
            };
            PaceStep::FrameDone
        }
    }

    /// All frames are recorded.
    pub fn is_done(&self) -> (r: bool)
        ensures
            r == self.done(),
    {
        proof {
            use_type_invariant(self);
        }
        match self.phase {
            Phase::Done => true,
            _ => false,
        }
    }

    /// The per-frame duration sequence of the completed run: one entry per
    /// simulated frame, in frame order.
    pub fn into_times(self) -> (times: Vec<Duration>)
        requires
            self.done(),
        ensures
            times@ == self.times(),
            times@.len() == self.frames(),
    {
        proof {
            use_type_invariant(&self);
        }
        let Loop0 { times, .. } = self;
        times
    }
}

/// Pacing against one absolute, advancing schedule ("sleep then spin").
///
/// The schedule starts at the instant the run began and advances by exactly
/// one target period per frame, never resetting to "now". An overrunning
/// frame therefore leaves the schedule behind the clock, and the following
/// frames run back to back until the lag is made up.
pub struct Loop1 {
    target: Duration,
    frames: usize,
    times: Vec<Duration>,
    schedule: Instant,
    start: Ghost<Instant>,
    phase: Phase,
}

impl Loop1 {
    #[verifier::type_invariant]
    spec fn inv(self) -> bool {
        &&& self.frames >= 1
        &&& match self.phase {
            Phase::NeedWork => self.times@.len() < self.frames,
            Phase::Pacing => self.times@.len() <= self.frames,
            Phase::Done => self.times@.len() == self.frames,
        }
        &&& self.schedule@ == self.start@@ + self.times@.len() * self.target@
    }

    /// The target frame period.
    pub closed spec fn target(self) -> Duration {
        self.target
    }

    /// How many frames the run simulates.
    pub closed spec fn frames(self) -> usize {
        self.frames
    }

    /// The workload durations recorded so far, in frame order.
    pub closed spec fn times(self) -> Seq<Duration> {
        self.times@
    }

    /// The absolute deadline of the frame currently being paced.
    pub closed spec fn schedule(self) -> Instant {
        self.schedule
    }

    /// The instant the run began, from which the schedule advances.
    pub closed spec fn start(self) -> Instant {
        self.start@
    }

    /// The machine is waiting for the next frame's workload.
    pub closed spec fn ready(self) -> bool {
        self.phase is NeedWork
    }

    /// The machine is pacing out the rest of the current frame.
    pub closed spec fn pacing(self) -> bool {
        self.phase is Pacing
    }

    /// All frames are recorded.
    pub closed spec fn done(self) -> bool {
        self.phase is Done
    }

    /// A machine whose schedule starts at `start`, the clock reading taken
    /// as the run begins.
    pub fn new(params: &TestParams, start: Instant) -> (m: Loop1)
        ensures
            m.target() == params.target(),
            m.frames() == params.frames(),
            m.times().len() == 0,
            m.schedule() == start,
            m.start() == start,
            m.ready(),
    {
        Loop1 {
            target: params.target_frame_time(),
            frames: params.frames_to_simulate(),
            times: Vec::new(),
            schedule: start,
            start: Ghost(start),
            phase: Phase::NeedWork,
        }
    }

    /// The absolute deadline of the frame currently being paced.
    pub fn schedule_instant(&self) -> (r: Instant)
        ensures
            r == self.schedule(),
    {
        self.schedule
    }

    /// Law: the schedule is exact. After any number of recorded frames the
    /// deadline equals the start instant plus exactly one target period per
    /// frame — it is never reset to the clock, so it never falls behind the
    /// last completed frame's scheduled time by more than the one period the
    /// next frame adds, and lag from an overrun is made up rather than kept.
    pub fn schedule_exact(m: &Loop1)
        ensures
            m.schedule()@ == m.start()@ + m.times().len() * m.target()@,
    {
        proof {
            use_type_invariant(m);
        }
    }

    /// Records one frame's workload duration and advances the schedule by
    /// exactly one target period.
    pub fn record_frame(&mut self, work: Duration)
        requires
            old(self).ready(),
            old(self).schedule()@ + old(self).target()@ <= u64::MAX,
        ensures
            final(self).target() == old(self).target(),
            final(self).frames() == old(self).frames(),
            final(self).start() == old(self).start(),
            final(self).times() == old(self).times().push(work),
            final(self).schedule()@ == old(self).schedule()@ + old(self).target()@,
            final(self).pacing(),
    {
        proof {
            use_type_invariant(&*self);
            let l: int = old(self).times@.len() as int;
            let t: int = old(self).target@;
            assert((l + 1) * t == l * t + t) by (nonlinear_arith);
        }
        let mut tmp = Loop1 {
            target: self.target,
            frames: self.frames,
            times: Vec::new(),
            schedule: self.schedule,
            start: Ghost(self.schedule),
            phase: Phase::NeedWork,
        };
        std::mem::swap(&mut tmp, self);
        let Loop1 { target, frames, times: mut ts, schedule, start, phase: _ } = tmp;
        ts.push(work);
        *self = Loop1 {
            target,
            frames,
            times: ts,
            schedule: schedule.advanced_by(&target),
            start,
            phase: Phase::Pacing,
        };
    }

    /// Decides the next pacing step from a fresh clock reading. The frame is
    /// over once the clock has reached the absolute deadline; before that the
    /// driver sleeps while more than the threshold remains, and spins for the
    /// rest. A reading already past the deadline ends the frame at once, so
    /// an overrun is never waited out twice.
    pub fn pace(&mut self, now: Instant) -> (step: PaceStep)
        requires
            old(self).pacing(),
        ensures
            final(self).target() == old(self).target(),
            final(self).frames() == old(self).frames(),
            final(self).times() == old(self).times(),
            final(self).start() == old(self).start(),
            final(self).schedule() == old(self).schedule(),
            ({
                let over: bool = now@ >= old(self).schedule()@;
                let remaining: int = old(self).schedule()@ - now@;
                &&& (over ==> {
                    &&& step == PaceStep::FrameDone
                    &&& !final(self).pacing()
                    &&& (final(self).done() <==> old(self).times().len() == old(self).frames())
                    &&& (final(self).ready() <==> old(self).times().len() < old(self).frames())
                })
                &&& (!over && remaining > SLEEP_THRESHOLD_NANOS ==> {
                    &&& *final(self) == *old(self)
                    &&& (step matches PaceStep::Sleep(rem) && rem@ == remaining)
                })
                &&& (!over && remaining <= SLEEP_THRESHOLD_NANOS ==> {
                    &&& *final(self) == *old(self)
                    &&& step == PaceStep::Spin
                })
            }),
    {
        proof {
            use_type_invariant(&*self);
        }
        if now.lt(&self.schedule) {
            let rem = self.schedule.duration_since(&now);
            if crate::time::from_nanos(SLEEP_THRESHOLD_NANOS).lt(&rem) {
                PaceStep::Sleep(rem)
            } else {
                PaceStep::Spin
            }
        } else {
            let mut tmp = Loop1 {
                target: self.target,
                frames: self.frames,
                times: Vec::new(),
                schedule: self.schedule,
                start: Ghost(self.schedule),
                phase: Phase::NeedWork,
            };
            std::mem::swap(&mut tmp, self);
            let Loop1 { target, frames, times: ts, schedule, start, phase: _ } = tmp;
            let phase = if ts.len() == frames {
                Phase::Done
            } else {
                Phase::NeedWork
            };
            *self = Loop1 { target, frames, times: ts, schedule, start, phase };
            PaceStep::FrameDone
        }
    }

    /// All frames are recorded.
    pub fn is_done(&self) -> (r: bool)
        ensures
            r == self.done(),
    {
        proof {
            use_type_invariant(self);
        }
        match self.phase {
            Phase::Done => true,
            _ => false,
        }
    }

    /// The per-frame duration sequence of the completed run: one entry per
    /// simulated frame, in frame order.
    pub fn into_times(self) -> (times: Vec<Duration>)
        requires
            self.done(),
        ensures
            times@ == self.times(),
            times@.len() == self.frames(),
    {
        proof {
            use_type_invariant(&self);
        }
        let Loop1 { times, .. } = self;
        times
    }
}

/// Fixed-timestep pacing with an accumulator of unspent time.
///
/// Each outer pass banks the real time elapsed since the previous pass; while
/// more than one whole target period is banked, one frame's workload runs and
/// one period is spent. A long interval can thus pay for several frames in
/// one pass, and a short one for none — the frame count is decoupled from the
/// outer iteration count. Between passes the driver yields the thread with a
/// zero-length sleep rather than blocking.
pub struct Loop2 {
    target: Duration,
    frames: usize,
    times: Vec<Duration>,
    last_frame_time: Instant,
    remaining_update_time: Duration,
}

impl Loop2 {
    #[verifier::type_invariant]
    spec fn inv(self) -> bool {
        &&& self.frames >= 1
        &&& self.times@.len() <= self.frames
    }

    /// The target frame period.
    pub closed spec fn target(self) -> Duration {
        self.target
    }

    /// How many frames the run simulates.
    pub closed spec fn frames(self) -> usize {
        self.frames
    }

    /// The workload durations recorded so far, in frame order.
    pub closed spec fn times(self) -> Seq<Duration> {
        self.times@
    }

    /// The instant of the previous outer pass.
    pub closed spec fn last(self) -> Instant {
        self.last_frame_time
    }

    /// The accumulator: banked real time not yet spent on frames.
    pub closed spec fn remaining(self) -> Duration {
        self.remaining_update_time
    }

    /// All frames are recorded.
    pub closed spec fn done(self) -> bool {
        self.times@.len() == self.frames
    }

    /// A machine with an empty accumulator whose first pass measures from
    /// `start`, the clock reading taken as the run begins.
    pub fn new(params: &TestParams, start: Instant) -> (m: Loop2)
        ensures
            m.target() == params.target(),
            m.frames() == params.frames(),
            m.times().len() == 0,
            m.last() == start,
            m.remaining()@ == 0,
    {
        Loop2 {
            target: params.target_frame_time(),
            frames: params.frames_to_simulate(),
            times: Vec::new(),
            last_frame_time: start,
            remaining_update_time: Duration::zero(),
        }
    }

    /// The instant of the previous outer pass.
    pub fn last_instant(&self) -> (r: Instant)
        ensures
            r == self.last(),
    {
        self.last_frame_time
    }

    /// The accumulator: banked real time not yet spent on frames.
    pub fn remaining_time(&self) -> (r: Duration)
        ensures
            r == self.remaining(),
    {
        self.remaining_update_time
    }

    /// Starts an outer pass: banks the real time elapsed since the previous
    /// pass into the accumulator. The clock is monotonic, so `now` is never
    /// earlier than the previous reading.
    pub fn add_elapsed(&mut self, now: Instant)
        requires
            old(self).last()@ <= now@,
            old(self).remaining()@ + (now@ - old(self).last()@)
                <= crate::time::max_duration_nanos(),
        ensures
            final(self).target() == old(self).target(),
            final(self).frames() == old(self).frames(),
            final(self).times() == old(self).times(),
            final(self).last() == now,
            final(self).remaining()@ == old(self).remaining()@ + (now@ - old(self).last()@),
    {
        proof {
            use_type_invariant(&*self);
        }
        let delta = now.duration_since(&self.last_frame_time);
        self.remaining_update_time = self.remaining_update_time.checked_add(&delta).unwrap();
        self.last_frame_time = now;
    }

    /// Whether one more frame's workload is owed in this pass: more than one
    /// whole target period is banked and frames are still missing.
    pub fn needs_work(&self) -> (r: bool)
        ensures
            r == (self.remaining()@ > self.target()@ && self.times().len() < self.frames()),
    {
        self.target.lt(&self.remaining_update_time) && self.times.len() < self.frames
    }

    /// Records one frame's workload duration and spends one target period
    /// from the accumulator.
    pub fn complete_work(&mut self, work: Duration)
        requires
            old(self).remaining()@ > old(self).target()@,
            old(self).times().len() < old(self).frames(),
        ensures
            final(self).target() == old(self).target(),
            final(self).frames() == old(self).frames(),
            final(self).last() == old(self).last(),
            final(self).times() == old(self).times().push(work),
            final(self).remaining()@ == old(self).remaining()@ - old(self).target()@,
    {
        proof {
            use_type_invariant(&*self);
        }
        let mut ts: Vec<Duration> = Vec::new();
        std::mem::swap(&mut ts, &mut self.times);
        ts.push(work);
        *self = Loop2 {
            target: self.target,
            frames: self.frames,
            times: ts,
            last_frame_time: self.last_frame_time,
            remaining_update_time: self.remaining_update_time.checked_sub(&self.target).unwrap(),
        };
    }

    /// All frames are recorded.
    pub fn is_done(&self) -> (r: bool)
        ensures
            r == self.done(),
    {
        self.times.len() == self.frames
    }

    /// The per-frame duration sequence of the completed run: one entry per
    /// simulated frame, in frame order.
    pub fn into_times(self) -> (times: Vec<Duration>)
        requires
            self.done(),
        ensures
            times@ == self.times(),
            times@.len() == self.frames(),
    {
        let Loop2 { times, .. } = self;
        times
    }
}

/// Where the deadline-recomputing machine stands.
enum Phase3 {
    /// Waiting for the driver to run the next frame's workload.
    NeedWork,
    /// Re-advancing the schedule past the clock, dropping missed periods.
    Advancing,
    /// Yielding until the clock reaches the schedule.
    Waiting,
    /// All frames are recorded.
    Done,
}

/// Pacing against an absolute schedule that drops missed frames.
///
/// After each frame the schedule is advanced one target period at a time
/// against fresh clock readings until it lies in the future again, so periods
/// the frame overran are dropped from the schedule rather than caught up.
/// The machine then has the driver yield cooperatively — it never sleeps —
/// until the clock reaches the recomputed deadline.
pub struct Loop3 {
    target: Duration,
    frames: usize,
    times: Vec<Duration>,
    schedule: Instant,
    phase: Phase3,
}

impl Loop3 {
    #[verifier::type_invariant]
    spec fn inv(self) -> bool {
        &&& self.frames >= 1
        &&& match self.phase {
            Phase3::NeedWork => self.times@.len() < self.frames,
            Phase3::Advancing => self.times@.len() <= self.frames,
            Phase3::Waiting => self.times@.len() <= self.frames,
            Phase3::Done => self.times@.len() == self.frames,
        }
    }

    /// The target frame period.
    pub closed spec fn target(self) -> Duration {
        self.target
    }

    /// How many frames the run simulates.
    pub closed spec fn frames(self) -> usize {
        self.frames
    }

    /// The workload durations recorded so far, in frame order.
    pub closed spec fn times(self) -> Seq<Duration> {
        self.times@
    }

    /// The absolute start of the next frame's cadence slot.
    pub closed spec fn schedule(self) -> Instant {
        self.schedule
    }

    /// The machine is waiting for the next frame's workload.
    pub closed spec fn ready(self) -> bool {
        self.phase is NeedWork
    }

    /// The machine is re-advancing the schedule past the clock.
    pub closed spec fn advancing(self) -> bool {
        self.phase is Advancing
    }

    /// The machine is yielding until the clock reaches the schedule.
    pub closed spec fn waiting(self) -> bool {
        self.phase is Waiting
    }

    /// All frames are recorded.
    pub closed spec fn done(self) -> bool {
        self.phase is Done
    }

    /// A machine whose schedule starts at `start`, the clock reading taken
    /// as the run begins.
    pub fn new(params: &TestParams, start: Instant) -> (m: Loop3)
        ensures
            m.target() == params.target(),
            m.frames() == params.frames(),
            m.times().len() == 0,
            m.schedule() == start,
            m.ready(),
    {
        Loop3 {
            target: params.target_frame_time(),
            frames: params.frames_to_simulate(),
            times: Vec::new(),
            schedule: start,
            phase: Phase3::NeedWork,
        }
    }

    /// The absolute start of the next frame's cadence slot.
    pub fn schedule_instant(&self) -> (r: Instant)
        ensures
            r == self.schedule(),
    {
        self.schedule
    }

    /// Records one frame's workload duration; the schedule must now be
    /// re-advanced past the clock.
    pub fn record_frame(&mut self, work: Duration)
        requires
            old(self).ready(),
        ensures
            final(self).target() == old(self).target(),
            final(self).frames() == old(self).frames(),
            final(self).schedule() == old(self).schedule(),
            final(self).times() == old(self).times().push(work),
            final(self).advancing(),
    {
        proof {
            use_type_invariant(&*self);
        }
        let mut ts: Vec<Duration> = Vec::new();
        std::mem::swap(&mut ts, &mut self.times);
        ts.push(work);
        *self = Loop3 {
            target: self.target,
            frames: self.frames,
            times: ts,
            schedule: self.schedule,
            phase: Phase3::Advancing,
        };
    }

    /// One step of recomputing the schedule against a fresh clock reading:
    /// while the schedule is still behind the clock it advances one target
    /// period — dropping that missed period — and asks for another reading;
    /// once it lies at or ahead of the clock, the machine moves on to
    /// waiting.
    pub fn advance(&mut self, now: Instant) -> (stepped: bool)
        requires
            old(self).advancing(),
            old(self).schedule()@ + old(self).target()@ <= u64::MAX,
        ensures
            final(self).target() == old(self).target(),
            final(self).frames() == old(self).frames(),
            final(self).times() == old(self).times(),
            old(self).schedule()@ < now@ ==> {
                &&& stepped
                &&& final(self).schedule()@ == old(self).schedule()@ + old(self).target()@
                &&& final(self).advancing()
            },
            old(self).schedule()@ >= now@ ==> {
                &&& !stepped
                &&& final(self).schedule() == old(self).schedule()
                &&& final(self).waiting()
            },
    {
        proof {
            use_type_invariant(&*self);
        }
        if self.schedule.lt(&now) {
            self.schedule = self.schedule.advanced_by(&self.target);
            true
        } else {
            self.phase = Phase3::Waiting;
            false
        }
    }

    /// One step of waiting out the recomputed deadline: until the clock
    /// reaches the schedule the driver yields and reports a fresh reading;
    /// then the frame is over.
    pub fn wait_step(&mut self, now: Instant) -> (step: PaceStep)
        requires
            old(self).waiting(),
        ensures
            final(self).target() == old(self).target(),
            final(self).frames() == old(self).frames(),
            final(self).times() == old(self).times(),
            final(self).schedule() == old(self).schedule(),
            now@ < old(self).schedule()@ ==> step == PaceStep::Yield && *final(self) == *old(
                self,
            ),
            now@ >= old(self).schedule()@ ==> {
                &&& step == PaceStep::FrameDone
                &&& (final(self).done() <==> old(self).times().len() == old(self).frames())
                &&& (final(self).ready() <==> old(self).times().len() < old(self).frames())
            },
    {
        proof {
            use_type_invariant(&*self);
        }
        if now.lt(&self.schedule) {
            PaceStep::Yield
        } else {
            let mut ts: Vec<Duration> = Vec::new();
            std::mem::swap(&mut ts, &mut self.times);
            let phase = if ts.len() == self.frames {
                Phase3::Done
            } else {
                Phase3::NeedWork
            };
            *self = Loop3 {
                target: self.target,
                frames: self.frames,
                times: ts,
                schedule: self.schedule,
                phase,
            };
            PaceStep::FrameDone
        }
    }

    /// All frames are recorded.
    pub fn is_done(&self) -> (r: bool)
        ensures
            r == self.done(),
    {
        proof {
            use_type_invariant(self);
        }
        match self.phase {
            Phase3::Done => true,
            _ => false,
        }
    }

    /// The per-frame duration sequence of the completed run: one entry per
    /// simulated frame, in frame order.
    pub fn into_times(self) -> (times: Vec<Duration>)
        requires
            self.done(),
        ensures
            times@ == self.times(),
            times@.len() == self.frames(),
    {
        proof {
            use_type_invariant(&self);
        }
        let Loop3 { times, .. } = self;
        times
    }
}

} // verus!
