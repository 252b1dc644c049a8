use daw_core::smooth::{clamp_frames, Smooth};
use daw_core::SmoothStatus;

#[test]
fn only_inactive_is_not_active() {
    assert!(!SmoothStatus::Inactive.is_active());
    assert!(SmoothStatus::Active.is_active());
    assert!(SmoothStatus::Deactivating.is_active());
}

#[test]
fn only_active_ramps() {
    assert!(!SmoothStatus::Inactive.is_ramping());
    assert!(SmoothStatus::Active.is_ramping());
    assert!(!SmoothStatus::Deactivating.is_ramping());
}

#[test]
fn set_activates_and_reset_idles() {
    for s in [SmoothStatus::Inactive, SmoothStatus::Active, SmoothStatus::Deactivating] {
        assert_eq!(s.after_set(), SmoothStatus::Active);
        assert_eq!(s.after_reset(), SmoothStatus::Inactive);
    }
}

#[test]
fn status_transitions_after_a_block() {
    assert_eq!(SmoothStatus::Active.after_block(false), SmoothStatus::Active);
    assert_eq!(SmoothStatus::Active.after_block(true), SmoothStatus::Deactivating);
    assert_eq!(SmoothStatus::Deactivating.after_block(false), SmoothStatus::Inactive);
    assert_eq!(SmoothStatus::Deactivating.after_block(true), SmoothStatus::Inactive);
    assert_eq!(SmoothStatus::Inactive.after_block(false), SmoothStatus::Inactive);
    assert_eq!(SmoothStatus::Inactive.after_block(true), SmoothStatus::Inactive);
}

#[test]
fn only_an_active_engine_snaps() {
    assert!(SmoothStatus::Active.snaps_to_target(true));
    assert!(!SmoothStatus::Active.snaps_to_target(false));
    assert!(!SmoothStatus::Deactivating.snaps_to_target(true));
    assert!(!SmoothStatus::Inactive.snaps_to_target(true));
}

#[test]
fn idle_engine_stays_idle() {
    let mut s = SmoothStatus::Inactive;
    for i in 0..100 {
        s = s.after_block(i % 3 == 0);
        assert_eq!(s, SmoothStatus::Inactive);
        assert!(!s.is_ramping());
    }
}

#[test]
fn settled_engine_deactivates_for_one_block() {
    let mut s = SmoothStatus::Inactive.after_set();
    s = s.after_block(false);
    assert_eq!(s, SmoothStatus::Active);
    s = s.after_block(true);
    assert_eq!(s, SmoothStatus::Deactivating);
    assert!(s.is_active());
    s = s.after_block(true);
    assert_eq!(s, SmoothStatus::Inactive);
    assert!(!s.is_active());
}

#[test]
fn frames_are_clamped_to_the_block() {
    assert_eq!(clamp_frames(0, 128), 0);
    assert_eq!(clamp_frames(127, 128), 127);
    assert_eq!(clamp_frames(128, 128), 128);
    assert_eq!(clamp_frames(129, 128), 128);
    assert_eq!(clamp_frames(usize::MAX, 128), 128);
    assert_eq!(clamp_frames(5, 0), 0);
}


fn halfway(target: i64, prev: i64) -> i64 {
    prev + (target - prev) / 2
}

fn within_one(target: i64, first: i64) -> bool {
    (target - first).abs() <= 1
}

#[test]
fn new_engine_rests_at_its_value() {
    let e = Smooth::<i64, 4>::new(7);
    assert_eq!(e.dest(), 7);
    assert_eq!(e.current_value(), (7, SmoothStatus::Inactive));
    assert!(!e.is_active());
    let out = e.output();
    assert_eq!(*out.values, [7; 4]);
    assert_eq!(out.status, SmoothStatus::Inactive);
    assert!(!out.is_smoothing());
}

#[test]
fn set_changes_target_and_status_only() {
    let mut e = Smooth::<i64, 4>::new(7);
    e.set(100);
    assert_eq!(e.dest(), 100);
    assert_eq!(e.current_value(), (7, SmoothStatus::Active));
    assert_eq!(*e.output().values, [7; 4]);
    assert!(e.is_active());
    assert!(e.output().is_smoothing());
}

#[test]
fn process_steps_from_the_last_output() {
    let mut e = Smooth::<i64, 4>::new(0);
    e.set(64);
    e.process(4, halfway);
    assert_eq!(*e.output().values, [32, 48, 56, 60]);
    assert_eq!(e.current_value(), (60, SmoothStatus::Active));
    e.process(2, halfway);
    assert_eq!(*e.output().values, [62, 63, 56, 60]);
    assert_eq!(e.current_value(), (63, SmoothStatus::Active));
}

#[test]
fn process_clamps_frames_to_the_block() {
    let mut e = Smooth::<i64, 4>::new(0);
    e.set(64);
    e.process(1000, halfway);
    assert_eq!(*e.output().values, [32, 48, 56, 60]);
    assert_eq!(e.current_value().0, 60);
}

#[test]
fn process_does_nothing_unless_active() {
    let mut e = Smooth::<i64, 4>::new(5);
    e.process(4, halfway);
    assert_eq!(*e.output().values, [5; 4]);
    assert_eq!(e.current_value(), (5, SmoothStatus::Inactive));
    e.process(0, halfway);
    assert_eq!(e.current_value(), (5, SmoothStatus::Inactive));
}

#[test]
fn update_status_walks_the_state_machine() {
    let mut e = Smooth::<i64, 4>::new(0);
    assert_eq!(e.update_status_with(within_one), SmoothStatus::Inactive);
    e.set(64);
    e.process(4, halfway);
    // first sample 32 is not within reach of 64
    assert_eq!(e.update_status_with(within_one), SmoothStatus::Active);
    assert_eq!(*e.output().values, [32, 48, 56, 60]);
    e.process(4, halfway);
    assert_eq!(*e.output().values, [62, 63, 63, 63]);
    assert_eq!(e.update_status_with(within_one), SmoothStatus::Active);
    e.process(4, halfway);
    assert_eq!(*e.output().values, [63, 63, 63, 63]);
    // settled: snap to the target, one deactivating block
    assert_eq!(e.update_status_with(within_one), SmoothStatus::Deactivating);
    assert_eq!(*e.output().values, [64; 4]);
    assert_eq!(e.current_value(), (64, SmoothStatus::Deactivating));
    assert_eq!(e.dest(), 64);
    assert!(e.is_active());
    e.process(4, halfway);
    assert_eq!(e.update_status_with(within_one), SmoothStatus::Inactive);
    assert_eq!(*e.output().values, [64; 4]);
    assert!(!e.is_active());
    assert_eq!(e.update_status_with(within_one), SmoothStatus::Inactive);
}

#[test]
fn reset_jumps_and_idles() {
    let mut e = Smooth::<i64, 4>::new(0);
    e.set(64);
    e.process(4, halfway);
    e.reset(-3);
    assert_eq!(*e.output().values, [-3; 4]);
    assert_eq!(e.dest(), -3);
    assert_eq!(e.current_value(), (-3, SmoothStatus::Inactive));
}

#[test]
fn advance_sets_processes_and_updates() {
    let mut e = Smooth::<i64, 4>::new(0);
    {
        let out = e.advance(Some(64), 4, halfway, within_one);
        assert_eq!(*out.values, [32, 48, 56, 60]);
        assert_eq!(out.status, SmoothStatus::Active);
    }
    {
        let out = e.advance(None, 4, halfway, within_one);
        assert_eq!(*out.values, [62, 63, 63, 63]);
        assert_eq!(out.status, SmoothStatus::Active);
    }
    {
        let out = e.advance(None, 4, halfway, within_one);
        assert_eq!(*out.values, [64; 4]);
        assert_eq!(out.status, SmoothStatus::Deactivating);
    }
    {
        let out = e.advance(None, 4, halfway, within_one);
        assert_eq!(*out.values, [64; 4]);
        assert_eq!(out.status, SmoothStatus::Inactive);
    }
}

#[test]
fn idle_advance_is_idempotent() {
    let mut e = Smooth::<i64, 4>::new(9);
    for frames in [0usize, 1, 4, 100, 0, 3] {
        let out = e.advance(None, frames, halfway, within_one);
        assert_eq!(*out.values, [9; 4]);
        assert_eq!(out.status, SmoothStatus::Inactive);
    }
    assert_eq!(e.current_value(), (9, SmoothStatus::Inactive));
    assert_eq!(e.dest(), 9);
}

#[test]
fn one_pole_ramp_settles_without_overshoot() {
    let sample_rate = 48000.0f64;
    let seconds = 0.05f64;
    let b = (-1.0f64 / (seconds * sample_rate)).exp();
    let a = 1.0f64 - b;
    let step = move |target: f64, prev: f64| target * a + prev * b;
    let settled = |target: f64, first: f64| (target - first).abs() < 0.00001f64;
    // +6 dB as a gain
    let target = 10.0f64.powf(6.0 / 20.0);
    assert!((target - 1.995).abs() < 0.001);

    let mut e = Smooth::<f64, 128>::new(0.0);
    let mut last = 0.0f64;
    let mut blocks = 0usize;
    let mut first = true;
    loop {
        let status = {
            let out = e.advance(if first { Some(target) } else { None }, 128, step, settled);
            let mut prev = last;
            if out.status == SmoothStatus::Active {
                for v in out.values.iter() {
                    assert!(*v >= prev);
                    assert!(*v <= target);
                    prev = *v;
                }
            }
            out.status
        };
        first = false;
        blocks += 1;
        let now = e.current_value().0;
        assert!(now >= last);
        assert!(now <= target);
        last = now;
        if status != SmoothStatus::Active {
            assert_eq!(status, SmoothStatus::Deactivating);
            break;
        }
        assert!(blocks < 1000);
    }
    // the time constant is 2400 samples: about 230 blocks of 128 to come within 1e-5
    assert!(blocks > 100);
    assert_eq!(e.current_value(), (target, SmoothStatus::Deactivating));
    assert_eq!(*e.output().values, [target; 128]);
    {
        let out = e.advance(None, 128, step, settled);
        assert_eq!(out.status, SmoothStatus::Inactive);
        assert_eq!(*out.values, [target; 128]);
    }
    for _ in 0..3 {
        let out = e.advance(None, 128, step, settled);
        assert_eq!(out.status, SmoothStatus::Inactive);
        assert_eq!(*out.values, [target; 128]);
    }
}

#[test]
fn ramp_downwards_is_monotonic_too() {
    let b = (-1.0f64 / (0.01 * 44100.0)).exp();
    let a = 1.0f64 - b;
    let step = move |target: f64, prev: f64| target * a + prev * b;
    let settled = |target: f64, first: f64| (target - first).abs() < 0.00001f64;
    let mut e = Smooth::<f64, 64>::new(1.0);
    e.set(0.25);
    let mut last = 1.0f64;
    let mut blocks = 0;
    while e.current_value().1 == SmoothStatus::Active {
        e.process(64, step);
        e.update_status_with(settled);
        let now = e.current_value().0;
        assert!(now <= last);
        assert!(now >= 0.25);
        last = now;
        blocks += 1;
        assert!(blocks < 1000);
    }
    assert_eq!(e.current_value(), (0.25, SmoothStatus::Deactivating));
}
