use frame_timing::pacing::Loop0;
use frame_timing::pacing::Loop1;
use frame_timing::pacing::Loop2;
use frame_timing::pacing::Loop3;
use frame_timing::pacing::PaceStep;
use frame_timing::params::TestParams;
use frame_timing::time::Duration;
use frame_timing::time::Instant;

fn ms(n: u64) -> Duration {
    Duration::from_millis(n)
}

fn at_ms(n: u64) -> Instant {
    Instant::new(n * 1_000_000)
}

fn params(target_ms: u64, frames: usize) -> TestParams {
    TestParams::new(ms(target_ms), frames, 1_000).unwrap()
}

#[test]
fn params_reject_zero_frames() {
    assert!(TestParams::new(ms(16), 0, 1_000).is_none());
    let p = params(16, 60);
    assert_eq!(p.target_frame_time(), ms(16));
    assert_eq!(p.frames_to_simulate(), 60);
    assert_eq!(p.workload(), 1_000);
}

#[test]
fn loop0_produces_one_duration_per_frame() {
    let p = params(16, 3);
    let mut m = Loop0::new(&p);
    let works = [ms(5), ms(30), ms(7)];
    let mut now: u64 = 0;
    for w in works {
        assert!(!m.is_done());
        m.record_frame(at_ms(now), w);
        // A reading a full period later always ends the frame.
        now += 16;
        assert_eq!(m.pace(at_ms(now)), PaceStep::FrameDone);
    }
    assert!(m.is_done());
    let times = m.into_times();
    assert_eq!(times, vec![ms(5), ms(30), ms(7)]);
}

#[test]
fn loop0_sleeps_then_spins_then_finishes() {
    let p = params(16, 1);
    let mut m = Loop0::new(&p);
    m.record_frame(at_ms(100), ms(2));
    // 14ms remain: far above the 1ms threshold, so sleep the remainder.
    assert_eq!(m.pace(at_ms(102)), PaceStep::Sleep(ms(14)));
    // Sleep overshot imprecisely; 0.5ms remain: below the threshold, spin.
    assert_eq!(
        m.pace(Instant::new(115 * 1_000_000 + 500_000)),
        PaceStep::Spin
    );
    // The spin reads the clock until the full period has elapsed.
    assert_eq!(m.pace(at_ms(116)), PaceStep::FrameDone);
    assert!(m.is_done());
    assert_eq!(m.into_times(), vec![ms(2)]);
}

#[test]
fn loop0_overrun_frame_ends_immediately() {
    let p = params(16, 1);
    let mut m = Loop0::new(&p);
    m.record_frame(at_ms(0), ms(20));
    // The workload overran the whole period: no sleeping, no spinning.
    assert_eq!(m.pace(at_ms(20)), PaceStep::FrameDone);
    assert!(m.is_done());
}

#[test]
fn loop1_produces_one_duration_per_frame() {
    let p = params(16, 3);
    let mut m = Loop1::new(&p, at_ms(0));
    let mut now: u64 = 0;
    for _ in 0..3 {
        m.record_frame(ms(4));
        loop {
            match m.pace(at_ms(now)) {
                PaceStep::Sleep(_) | PaceStep::Spin => now += 4,
                PaceStep::FrameDone => break,
                PaceStep::Yield => unreachable!(),
            }
        }
    }
    assert!(m.is_done());
    assert_eq!(m.into_times(), vec![ms(4), ms(4), ms(4)]);
}

#[test]
fn loop1_schedule_advances_exactly_one_period_per_frame() {
    // Every frame overruns the 10ms target by 10ms. The advancing schedule
    // still moves exactly one period per frame, so it never falls behind the
    // previous frame's scheduled time by more than one period, and the late
    // frames are followed by immediate FrameDone steps (catch-up).
    let p = params(10, 3);
    let mut m = Loop1::new(&p, at_ms(0));
    let mut now: u64 = 0;
    for k in 1..=3u64 {
        m.record_frame(ms(20));
        now += 20;
        // The clock is already past the deadline: the frame ends at once,
        // with no sleep and no spin.
        assert_eq!(m.pace(at_ms(now)), PaceStep::FrameDone);
        assert_eq!(m.schedule_instant(), at_ms(10 * k));
    }
    assert!(m.is_done());
    // After three overrunning frames the schedule sits at 30ms while the
    // clock reads 60ms: the lag is owed to the schedule, not forgotten.
    assert_eq!(m.schedule_instant(), at_ms(30));
}

#[test]
fn loop0_accumulates_lag_where_loop1_does_not() {
    // The same sustained overrun, fed to both strategies: 10ms target, every
    // workload 20ms.
    let frames: u64 = 3;
    let p = params(10, frames as usize);

    // Relative pacing: each frame starts when the previous one ended, so the
    // run's end drifts by the full overrun of every frame.
    let mut m0 = Loop0::new(&p);
    let mut now: u64 = 0;
    for _ in 0..frames {
        m0.record_frame(at_ms(now), ms(20));
        now += 20;
        assert_eq!(m0.pace(at_ms(now)), PaceStep::FrameDone);
    }
    assert!(m0.is_done());
    let loop0_end = now;
    // 60ms of wall clock for 30ms of schedule: the lag grew with every
    // frame and nothing remembers it.
    assert_eq!(loop0_end, 2 * 10 * frames);

    // Absolute schedule: the deadline after the run is start + frames * target,
    // within one period of every frame's scheduled time.
    let mut m1 = Loop1::new(&p, at_ms(0));
    let mut now1: u64 = 0;
    for _ in 0..frames {
        m1.record_frame(ms(20));
        now1 += 20;
        assert_eq!(m1.pace(at_ms(now1)), PaceStep::FrameDone);
    }
    assert!(m1.is_done());
    assert_eq!(m1.schedule_instant(), at_ms(10 * frames));
}

#[test]
fn loop2_catches_up_exactly_two_frames() {
    // One outer pass with 2.5 target periods elapsed pays for exactly two
    // workload invocations: not one, not three.
    let p = params(16, 5);
    let mut m = Loop2::new(&p, Instant::new(0));
    m.add_elapsed(at_ms(40));
    assert!(m.needs_work());
    m.complete_work(ms(16));
    assert!(m.needs_work());
    m.complete_work(ms(16));
    assert!(!m.needs_work());
    assert_eq!(m.remaining_time(), ms(8));
}

#[test]
fn loop2_runs_zero_frames_when_not_enough_time_banked() {
    let p = params(16, 5);
    let mut m = Loop2::new(&p, Instant::new(0));
    m.add_elapsed(at_ms(10));
    assert!(!m.needs_work());
    m.add_elapsed(at_ms(20));
    assert!(m.needs_work());
}

#[test]
fn loop2_produces_one_duration_per_frame() {
    let p = params(16, 4);
    let mut m = Loop2::new(&p, Instant::new(0));
    let mut now: u64 = 0;
    while !m.is_done() {
        now += 17;
        m.add_elapsed(at_ms(now));
        while m.needs_work() {
            m.complete_work(ms(3));
        }
    }
    let times = m.into_times();
    assert_eq!(times.len(), 4);
    assert_eq!(times, vec![ms(3), ms(3), ms(3), ms(3)]);
}

#[test]
fn loop3_drops_missed_periods() {
    let p = params(10, 1);
    let mut m = Loop3::new(&p, Instant::new(0));
    m.record_frame(ms(25));
    // The schedule is re-advanced past the clock, one period per reading,
    // dropping the two periods the frame overran.
    assert!(m.advance(at_ms(25)));
    assert!(m.advance(at_ms(25)));
    assert!(m.advance(at_ms(25)));
    assert!(!m.advance(at_ms(25)));
    assert_eq!(m.schedule_instant(), at_ms(30));
    // Waiting never sleeps: it yields until the clock reaches the schedule.
    assert_eq!(m.wait_step(at_ms(26)), PaceStep::Yield);
    assert_eq!(m.wait_step(at_ms(28)), PaceStep::Yield);
    assert_eq!(m.wait_step(at_ms(30)), PaceStep::FrameDone);
    assert!(m.is_done());
}

#[test]
fn loop3_produces_one_duration_per_frame() {
    let p = params(10, 3);
    let mut m = Loop3::new(&p, Instant::new(0));
    let mut now: u64 = 0;
    for _ in 0..3 {
        m.record_frame(ms(2));
        now += 2;
        while m.advance(at_ms(now)) {}
        loop {
            match m.wait_step(at_ms(now)) {
                PaceStep::Yield => now += 1,
                PaceStep::FrameDone => break,
                _ => unreachable!(),
            }
        }
    }
    assert!(m.is_done());
    assert_eq!(m.into_times(), vec![ms(2), ms(2), ms(2)]);
}
