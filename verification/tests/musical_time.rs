use daw_core::{MusicalTime, SUPER_BEAT_TICKS_PER_BEAT, SUPER_UNITS};

#[test]
fn super_units_is_the_documented_constant() {
    assert_eq!(SUPER_UNITS, 1_241_856_000);
    assert_eq!(SUPER_BEAT_TICKS_PER_BEAT, 1_241_856_000);
    for d in [2u64, 3, 4, 5, 6, 7, 8, 9, 10, 11, 12, 14, 15, 16, 18, 20, 24, 32, 64, 128, 256, 512, 1024, 2048, 1920] {
        assert_eq!(SUPER_UNITS % d, 0);
    }
}

#[test]
fn new_keeps_beats_and_super_beats() {
    let t = MusicalTime::new(4578749, 12390);
    assert_eq!(t.beats(), 4578749);
    assert_eq!(t.super_beats(), 12390);
    assert_eq!(t.ticks(), 12390);
}

#[test]
fn new_clamps_super_beats_below_one_beat() {
    let t = MusicalTime::new(2, 1_241_856_000);
    assert_eq!(t.beats(), 2);
    assert_eq!(t.super_beats(), 1_241_855_999);
    let u = MusicalTime::new(2, u32::MAX);
    assert_eq!(u, t);
    let v = MusicalTime::new(2, 1_241_855_999);
    assert_eq!(v, t);
}

#[test]
fn default_is_zero() {
    assert_eq!(MusicalTime::default(), MusicalTime::new(0, 0));
}

#[test]
fn from_beats_has_no_super_beats() {
    let t = MusicalTime::from_beats(17);
    assert_eq!(t, MusicalTime::new(17, 0));
    assert_eq!(MusicalTime::from_beats(u32::MAX).beats(), u32::MAX);
}

#[test]
fn from_power_of_two_fractions() {
    assert_eq!(MusicalTime::from_half_beats(1, 1), MusicalTime::new(1, 620_928_000));
    assert_eq!(MusicalTime::from_quarter_beats(1, 3), MusicalTime::new(1, 931_392_000));
    assert_eq!(MusicalTime::from_eighth_beats(0, 5), MusicalTime::new(0, 776_160_000));
    assert_eq!(MusicalTime::from_sixteenth_beats(2, 1), MusicalTime::new(2, 77_616_000));
    assert_eq!(MusicalTime::from_32nd_beats(0, 31), MusicalTime::new(0, 1_203_048_000));
    assert_eq!(MusicalTime::from_64th_beats(0, 1), MusicalTime::new(0, 19_404_000));
    assert_eq!(MusicalTime::from_128th_beats(0, 1), MusicalTime::new(0, 9_702_000));
    assert_eq!(MusicalTime::from_256th_beats(0, 2), MusicalTime::new(0, 9_702_000));
    assert_eq!(MusicalTime::from_512th_beats(0, 1), MusicalTime::new(0, 2_425_500));
    assert_eq!(MusicalTime::from_1024th_beats(0, 1), MusicalTime::new(0, 1_212_750));
    assert_eq!(MusicalTime::from_2048th_beats(0, 2047), MusicalTime::new(0, 1_241_249_625));
}

#[test]
fn from_odd_fractions() {
    assert_eq!(MusicalTime::from_third_beats(4, 2), MusicalTime::new(4, 827_904_000));
    assert_eq!(MusicalTime::from_fifth_beats(0, 1), MusicalTime::new(0, 248_371_200));
    assert_eq!(MusicalTime::from_sixth_beats(0, 5), MusicalTime::new(0, 1_034_880_000));
    assert_eq!(MusicalTime::from_seventh_beats(0, 3), MusicalTime::new(0, 532_224_000));
    assert_eq!(MusicalTime::from_ninth_beats(0, 1), MusicalTime::new(0, 137_984_000));
    assert_eq!(MusicalTime::from_tenth_beats(0, 9), MusicalTime::new(0, 1_117_670_400));
    assert_eq!(MusicalTime::from_eleventh_beats(0, 1), MusicalTime::new(0, 112_896_000));
    assert_eq!(MusicalTime::from_twelth_beats(0, 11), MusicalTime::new(0, 1_138_368_000));
    assert_eq!(MusicalTime::from_24th_beats(0, 1), MusicalTime::new(0, 51_744_000));
}

#[test]
fn fraction_numerators_are_clamped() {
    assert_eq!(MusicalTime::from_half_beats(3, 2), MusicalTime::from_half_beats(3, 1));
    assert_eq!(MusicalTime::from_half_beats(3, u32::MAX), MusicalTime::new(3, 620_928_000));
    assert_eq!(MusicalTime::from_quarter_beats(0, 4), MusicalTime::new(0, 931_392_000));
    assert_eq!(MusicalTime::from_third_beats(0, 3), MusicalTime::new(0, 827_904_000));
    assert_eq!(MusicalTime::from_24th_beats(0, 100), MusicalTime::new(0, 1_190_112_000));
    assert_eq!(MusicalTime::from_2048th_beats(0, 2048), MusicalTime::new(0, 1_241_249_625));
    assert_eq!(MusicalTime::from_fractional_beats(1, 7, 7), MusicalTime::new(1, 1_064_448_000));
    assert_eq!(MusicalTime::from_fractional_beats(1, 0, 1), MusicalTime::new(1, 0));
    assert_eq!(MusicalTime::from_fractional_beats(1, 9, 1), MusicalTime::new(1, 0));
}

#[test]
fn snap_to_nearest_beat_rounds_half_up() {
    assert_eq!(MusicalTime::new(3, 620_927_999).snap_to_nearest_beat(), MusicalTime::new(3, 0));
    assert_eq!(MusicalTime::new(3, 620_928_000).snap_to_nearest_beat(), MusicalTime::new(4, 0));
    assert_eq!(MusicalTime::new(3, 0).snap_to_nearest_beat(), MusicalTime::new(3, 0));
    assert_eq!(MusicalTime::new(0, 1_241_855_999).snap_to_nearest_beat(), MusicalTime::new(1, 0));
}

#[test]
fn snap_to_nearest_whole_beats_values() {
    // nearest beat 9, grid of 4: floor 8, remainder 1 < 2
    assert_eq!(MusicalTime::new(9, 0).snap_to_nearest_whole_beats(4), MusicalTime::new(8, 0));
    // nearest beat 10, remainder 2 >= 2: one beat past the grid beat
    assert_eq!(MusicalTime::new(10, 0).snap_to_nearest_whole_beats(4), MusicalTime::new(9, 0));
    assert_eq!(MusicalTime::new(9, 620_928_000).snap_to_nearest_whole_beats(4), MusicalTime::new(9, 0));
    assert_eq!(MusicalTime::new(8, 5).snap_to_nearest_whole_beats(4), MusicalTime::new(8, 0));
    // a grid of one beat: remainder 0 >= 0
    assert_eq!(MusicalTime::new(5, 1).snap_to_nearest_whole_beats(1), MusicalTime::new(6, 0));
    assert_eq!(MusicalTime::new(7, 0).snap_to_nearest_whole_beats(3), MusicalTime::new(7, 0));
    assert_eq!(MusicalTime::new(6, 0).snap_to_nearest_whole_beats(3), MusicalTime::new(6, 0));
}

#[test]
fn snap_to_nearest_fraction_values() {
    let half = 620_928_000u32;
    assert_eq!(MusicalTime::new(1, 310_463_999).snap_to_nearest_half_beat(), MusicalTime::new(1, 0));
    assert_eq!(MusicalTime::new(1, 310_464_000).snap_to_nearest_half_beat(), MusicalTime::new(1, half));
    assert_eq!(MusicalTime::new(1, half + 310_464_000).snap_to_nearest_half_beat(), MusicalTime::new(2, 0));
    assert_eq!(MusicalTime::new(1, half).snap_to_nearest_half_beat(), MusicalTime::new(1, half));
    assert_eq!(MusicalTime::new(0, 100).snap_to_nearest_quarter_beat(), MusicalTime::new(0, 0));
    assert_eq!(MusicalTime::new(0, 155_232_000).snap_to_nearest_quarter_beat(), MusicalTime::new(0, 310_464_000));
    assert_eq!(MusicalTime::new(0, 77_616_000).snap_to_nearest_eigth_beat(), MusicalTime::new(0, 155_232_000));
    assert_eq!(MusicalTime::new(0, 77_615_999).snap_to_nearest_eigth_beat(), MusicalTime::new(0, 0));
    assert_eq!(MusicalTime::new(0, 40_000_000).snap_to_nearest_sixteenth_beat(), MusicalTime::new(0, 77_616_000));
    assert_eq!(MusicalTime::new(0, 20_000_000).snap_to_nearest_32nd_beat(), MusicalTime::new(0, 38_808_000));
    assert_eq!(MusicalTime::new(0, 9_000_000).snap_to_nearest_64th_beat(), MusicalTime::new(0, 0));
    assert_eq!(MusicalTime::new(0, 5_000_000).snap_to_nearest_128th_beat(), MusicalTime::new(0, 9_702_000));
    assert_eq!(MusicalTime::new(0, 2_425_500).snap_to_nearest_256th_beat(), MusicalTime::new(0, 4_851_000));
    assert_eq!(MusicalTime::new(0, 1_212_750).snap_to_nearest_512th_beat(), MusicalTime::new(0, 2_425_500));
    assert_eq!(MusicalTime::new(0, 606_375).snap_to_nearest_1024th_beat(), MusicalTime::new(0, 1_212_750));
    // 606375 / 2 rounds down to 303187
    assert_eq!(MusicalTime::new(0, 303_187).snap_to_nearest_2048th_beat(), MusicalTime::new(0, 606_375));
    assert_eq!(MusicalTime::new(0, 303_186).snap_to_nearest_2048th_beat(), MusicalTime::new(0, 0));
    assert_eq!(MusicalTime::new(0, 206_976_000).snap_to_nearest_third_beat(), MusicalTime::new(0, 413_952_000));
    assert_eq!(MusicalTime::new(0, 124_185_600).snap_to_nearest_fifth_beat(), MusicalTime::new(0, 248_371_200));
    assert_eq!(MusicalTime::new(0, 103_487_999).snap_to_nearest_sixth_beat(), MusicalTime::new(0, 0));
    assert_eq!(MusicalTime::new(0, 88_704_000).snap_to_nearest_seventh_beat(), MusicalTime::new(0, 177_408_000));
    assert_eq!(MusicalTime::new(0, 68_992_000).snap_to_nearest_ninth_beat(), MusicalTime::new(0, 137_984_000));
    assert_eq!(MusicalTime::new(0, 62_092_800).snap_to_nearest_tenth_beat(), MusicalTime::new(0, 124_185_600));
    assert_eq!(MusicalTime::new(0, 56_448_000).snap_to_nearest_eleventh_beat(), MusicalTime::new(0, 112_896_000));
    assert_eq!(MusicalTime::new(0, 51_744_000).snap_to_nearest_twelfth_beat(), MusicalTime::new(0, 103_488_000));
    assert_eq!(MusicalTime::new(5, 1_241_855_999).snap_to_nearest_24th_beat(), MusicalTime::new(6, 0));
    assert_eq!(
        MusicalTime::new(5, 1_000_000_000).snap_to_nearest_fractional_beat::<1>(),
        MusicalTime::new(6, 0)
    );
    assert_eq!(
        MusicalTime::new(5, 620_927_999).snap_to_nearest_fractional_beat::<1>(),
        MusicalTime::new(5, 0)
    );
}

#[test]
fn num_fraction_values() {
    let t = MusicalTime::new(3, 620_928_000 + 5);
    assert_eq!(t.num_half_beats(), 5);
    assert_eq!(t.num_quarter_beats(), 5);
    assert_eq!(t.num_third_beats(), 620_928_005 - 413_952_000);
    assert_eq!(MusicalTime::new(0, 0).num_half_beats(), 0);
    assert_eq!(MusicalTime::new(0, 620_927_999).num_half_beats(), 620_927_999);
    let u = MusicalTime::new(1, 1_000_000_000);
    assert_eq!(u.num_eigth_beats(), 1_000_000_000 % 155_232_000);
    assert_eq!(u.num_sixteenth_beats(), 1_000_000_000 % 77_616_000);
    assert_eq!(u.num_32nd_beats(), 1_000_000_000 % 38_808_000);
    assert_eq!(u.num_64th_beats(), 1_000_000_000 % 19_404_000);
    assert_eq!(u.num_128th_beats(), 1_000_000_000 % 9_702_000);
    assert_eq!(u.num_256th_beats(), 1_000_000_000 % 4_851_000);
    assert_eq!(u.num_512th_beats(), 1_000_000_000 % 2_425_500);
    assert_eq!(u.num_1024th_beats(), 1_000_000_000 % 1_212_750);
    assert_eq!(u.num_2048th_beats(), 1_000_000_000 % 606_375);
    assert_eq!(u.num_fifth_beats(), 1_000_000_000 % 248_371_200);
    assert_eq!(u.num_sixth_beats(), 1_000_000_000 % 206_976_000);
    assert_eq!(u.num_seventh_beats(), 1_000_000_000 % 177_408_000);
    assert_eq!(u.num_ninth_beats(), 1_000_000_000 % 137_984_000);
    assert_eq!(u.num_tenth_beats(), 1_000_000_000 % 124_185_600);
    assert_eq!(u.num_eleventh_beats(), 1_000_000_000 % 112_896_000);
    assert_eq!(u.num_twelfth_beats(), 1_000_000_000 % 103_488_000);
    assert_eq!(u.num_24th_beats(), 1_000_000_000 % 51_744_000);
    assert_eq!(u.num_fractional_beats::<1920>(), 1_000_000_000 % 646_800);
    assert_eq!(u.num_eigth_beats(), 68_608_000);
}

#[test]
fn snapped_times_lie_on_the_grid() {
    let t = MusicalTime::new(7, 999_999_999);
    assert_eq!(t.snap_to_nearest_half_beat().num_half_beats(), 0);
    assert_eq!(t.snap_to_nearest_third_beat().num_third_beats(), 0);
    assert_eq!(t.snap_to_nearest_seventh_beat().num_seventh_beats(), 0);
    assert_eq!(t.snap_to_nearest_2048th_beat().num_2048th_beats(), 0);
    assert_eq!(MusicalTime::from_eleventh_beats(2, 7).num_eleventh_beats(), 0);
}

#[test]
fn checked_sub_borrow_safe() {
    assert_eq!(MusicalTime::new(0, 0).checked_sub(MusicalTime::new(0, 1)), None);
    assert_eq!(
        MusicalTime::new(5, 0).checked_sub(MusicalTime::new(3, 0)),
        Some(MusicalTime::new(2, 0))
    );
}

#[test]
fn checked_sub_borrows_across_the_beat() {
    assert_eq!(
        MusicalTime::new(5, 10).checked_sub(MusicalTime::new(3, 11)),
        Some(MusicalTime::new(1, 1_241_855_999))
    );
    assert_eq!(MusicalTime::new(3, 10).checked_sub(MusicalTime::new(3, 11)), None);
    assert_eq!(MusicalTime::new(2, 500).checked_sub(MusicalTime::new(3, 0)), None);
    assert_eq!(
        MusicalTime::new(3, 11).checked_sub(MusicalTime::new(3, 11)),
        Some(MusicalTime::new(0, 0))
    );
    assert_eq!(
        MusicalTime::new(1, 0).checked_sub(MusicalTime::new(0, 1_241_855_999)),
        Some(MusicalTime::new(0, 1))
    );
}

#[test]
fn add_carries_into_the_beats() {
    assert_eq!(MusicalTime::new(1, 2) + MusicalTime::new(3, 4), MusicalTime::new(4, 6));
    assert_eq!(
        MusicalTime::new(1, 1_241_855_999) + MusicalTime::new(0, 1),
        MusicalTime::new(2, 0)
    );
    assert_eq!(
        MusicalTime::new(1, 1_000_000_000) + MusicalTime::new(1, 1_000_000_000),
        MusicalTime::new(3, 758_144_000)
    );
}

#[test]
fn sub_borrows_from_the_beats() {
    assert_eq!(MusicalTime::new(4, 6) - MusicalTime::new(3, 4), MusicalTime::new(1, 2));
    assert_eq!(MusicalTime::new(2, 0) - MusicalTime::new(0, 1), MusicalTime::new(1, 1_241_855_999));
}

#[test]
fn mul_scales_the_whole_time() {
    assert_eq!(MusicalTime::new(1, 620_928_000) * 3, MusicalTime::new(4, 620_928_000));
    assert_eq!(MusicalTime::new(7, 9) * 0, MusicalTime::new(0, 0));
    assert_eq!(MusicalTime::new(7, 9) * 1, MusicalTime::new(7, 9));
    assert_eq!(MusicalTime::new(0, 1_241_855_999) * 1000, MusicalTime::new(999, 1_241_855_000));
}

#[test]
fn assign_operators_match_the_plain_ones() {
    let mut t = MusicalTime::new(1, 1_241_855_999);
    t += MusicalTime::new(0, 1);
    assert_eq!(t, MusicalTime::new(2, 0));
    t -= MusicalTime::new(0, 1);
    assert_eq!(t, MusicalTime::new(1, 1_241_855_999));
    t *= 2;
    assert_eq!(t, MusicalTime::new(3, 1_241_855_998));
}

#[test]
fn order_follows_the_position() {
    assert!(MusicalTime::new(1, 1_241_855_999) < MusicalTime::new(2, 0));
    assert!(MusicalTime::new(2, 1) > MusicalTime::new(2, 0));
    assert!(MusicalTime::new(2, 1) >= MusicalTime::new(2, 1));
    assert_eq!(MusicalTime::new(3, 4).max(MusicalTime::new(3, 5)), MusicalTime::new(3, 5));
}

#[test]
fn total_super_beats_round_trip() {
    let t = MusicalTime::new(3, 7);
    assert_eq!(t.total_super_beats(), 3 * 1_241_856_000 + 7);
    assert_eq!(MusicalTime::from_super_beats(3 * 1_241_856_000 + 7), Some(t));
    assert_eq!(MusicalTime::from_super_beats(0), Some(MusicalTime::new(0, 0)));
    let last = 4_294_967_296u64 * 1_241_856_000 - 1;
    assert_eq!(
        MusicalTime::from_super_beats(last),
        Some(MusicalTime::new(u32::MAX, 1_241_855_999))
    );
    assert_eq!(MusicalTime::new(u32::MAX, 1_241_855_999).total_super_beats(), last);
    assert_eq!(MusicalTime::from_super_beats(last + 1), None);
    assert_eq!(MusicalTime::from_super_beats(u64::MAX), None);
}

#[test]
fn add_and_sub_are_inverse() {
    let pairs = [
        (MusicalTime::new(5, 10), MusicalTime::new(3, 11)),
        (MusicalTime::new(0, 0), MusicalTime::new(0, 0)),
        (MusicalTime::new(7, 1_241_855_999), MusicalTime::new(7, 1_241_855_999)),
        (MusicalTime::new(1000, 5), MusicalTime::new(0, 1_241_855_999)),
    ];
    for (a, b) in pairs {
        assert_eq!((a - b) + b, a);
        assert_eq!((a + b) - b, a);
        assert_eq!(a.checked_sub(b).map(|d| d + b), Some(a));
    }
}
