use daw_core::{FrameTime, SampleTime, SuperclockTime};

#[test]
fn superclock_new_keeps_and_clamps() {
    let t = SuperclockTime::new(4578749, 12390);
    assert_eq!(t.seconds(), 4578749);
    assert_eq!(t.ticks(), 12390);
    assert_eq!(t.total_ticks(), 4578749 * 282_240_000 + 12390);
    let c = SuperclockTime::new(1, 282_240_000);
    assert_eq!(c.ticks(), 282_239_999);
    assert_eq!(c, SuperclockTime::new(1, u32::MAX));
    assert_eq!(SuperclockTime::default(), SuperclockTime::new(0, 0));
    assert_eq!(SuperclockTime::new(u32::MAX, u32::MAX).total_ticks(), 4_294_967_296 * 282_240_000 - 1);
}

#[test]
fn superclock_from_frames_and_samples() {
    assert_eq!(SuperclockTime::from_frame(FrameTime(48000), 48000), Some(SuperclockTime::new(1, 0)));
    assert_eq!(SuperclockTime::from_frame(FrameTime(48001), 48000), Some(SuperclockTime::new(1, 5880)));
    assert_eq!(SuperclockTime::from_frame(FrameTime(47999), 48000), Some(SuperclockTime::new(0, 282_234_120)));
    assert_eq!(SuperclockTime::from_frame(FrameTime(5), 48001), None);
    assert_eq!(SuperclockTime::from_sample(SampleTime(22050 * 7 + 1), 22050), Some(SuperclockTime::new(7, 12800)));
    assert_eq!(SuperclockTime::from_sample(SampleTime(5), 5), None);
    let last = 4_294_967_296u64 * 192000 - 1;
    assert_eq!(
        SuperclockTime::from_frame(FrameTime(last), 192000),
        Some(SuperclockTime::new(u32::MAX, 282_238_530))
    );
}

#[test]
fn superclock_round_trip() {
    for hz in [22050u64, 24000, 44100, 48000, 88200, 96000, 176400, 192000] {
        for n in [0u64, 1, 2, 44099, 44100, 44101, 999_999_999, 1_000_000_000, 90_000_000_000_000] {
            let t = SuperclockTime::from_frame(FrameTime(n), hz).unwrap();
            assert_eq!(t.to_nearest_frame_round(hz), Some(FrameTime(n)));
            let u = SuperclockTime::from_sample(SampleTime(n), hz).unwrap();
            assert_eq!(u.to_nearest_sample_round(hz), Some(SampleTime(n)));
            assert_eq!(t, u);
        }
    }
}

#[test]
fn superclock_to_frames_rounds_half_up() {
    assert_eq!(SuperclockTime::new(0, 2939).to_nearest_frame_round(48000), Some(FrameTime(0)));
    assert_eq!(SuperclockTime::new(0, 2940).to_nearest_frame_round(48000), Some(FrameTime(1)));
    assert_eq!(SuperclockTime::new(2, 2940).to_nearest_sample_round(48000), Some(SampleTime(96001)));
    assert_eq!(SuperclockTime::new(2, 2940).to_nearest_sample_round(48002), None);
    assert_eq!(SuperclockTime::new(2, 2940).to_nearest_frame_round(0), None);
}

#[test]
fn superclock_checked_sub() {
    assert_eq!(SuperclockTime::new(0, 0).checked_sub(SuperclockTime::new(0, 1)), None);
    assert_eq!(
        SuperclockTime::new(5, 0).checked_sub(SuperclockTime::new(3, 0)),
        Some(SuperclockTime::new(2, 0))
    );
    assert_eq!(
        SuperclockTime::new(5, 0).checked_sub(SuperclockTime::new(3, 1)),
        Some(SuperclockTime::new(1, 282_239_999))
    );
    assert_eq!(SuperclockTime::new(3, 0).checked_sub(SuperclockTime::new(3, 1)), None);
}

#[test]
fn superclock_order() {
    assert!(SuperclockTime::new(1, 282_239_999) < SuperclockTime::new(2, 0));
    assert!(SuperclockTime::new(2, 1) > SuperclockTime::new(2, 0));
}

#[test]
fn superclock_from_total_ticks() {
    assert_eq!(SuperclockTime::from_total_ticks(0), Some(SuperclockTime::new(0, 0)));
    assert_eq!(
        SuperclockTime::from_total_ticks(2 * 282_240_000 + 5),
        Some(SuperclockTime::new(2, 5))
    );
    let last = 4_294_967_296u64 * 282_240_000 - 1;
    assert_eq!(
        SuperclockTime::from_total_ticks(last),
        Some(SuperclockTime::new(u32::MAX, 282_239_999))
    );
    assert_eq!(SuperclockTime::from_total_ticks(last + 1), None);
    assert_eq!(SuperclockTime::from_total_ticks(u64::MAX), None);
}
