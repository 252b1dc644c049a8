use std::cmp::Ordering;
use vstd::arithmetic::div_mod::{lemma_fundamental_div_mod, lemma_fundamental_div_mod_converse};
use vstd::prelude::*;
use vstd::std_specs::cmp::PartialOrdSpecImpl;

verus! {

/// The number of super-beats in one beat.
///
/// It is divisible by 2 to 12, 14, 15, 16, 18, 20, 24, every power of two up to 2048, and
/// 1920, so the usual subdivisions of a beat all fall on whole super-beats.
pub const SUPER_UNITS: u64 = 1_241_856_000;

/// The number of super-beat ticks in one beat.
pub const SUPER_BEAT_TICKS_PER_BEAT: u32 = 1_241_856_000;

/// One more than the largest number of super-beats a `MusicalTime` can hold.
pub open spec fn musical_time_limit() -> nat {
    0x1_0000_0000 * 1_241_856_000
}

/// A position in musical time: whole beats and the super-beats after them.
///
/// Its view is the position in super-beats, `beats * SUPER_UNITS + super_beats`.
#[derive(Debug, Clone, Copy, PartialEq, Eq, Structural, Ord, Hash)]
pub struct MusicalTime {
    beats: u32,
    super_beats: u32,
}

impl View for MusicalTime {
    type V = nat;

    closed spec fn view(&self) -> nat {
        (self.beats as nat) * (SUPER_UNITS as nat) + (self.super_beats as nat)
    }
}

impl MusicalTime {
    /// The sub-beat part stays below one beat.
    #[verifier::type_invariant]
    pub closed spec fn wf(self) -> bool {
        self.super_beats < SUPER_UNITS
    }

    /// The time that lies `n` super-beats after zero.
    pub closed spec fn from_view(n: nat) -> MusicalTime {
        MusicalTime {
            beats: (n / (SUPER_UNITS as nat)) as u32,
            super_beats: (n % (SUPER_UNITS as nat)) as u32,
        }
    }

    /// `beats` whole beats and `super_beats` super-beats after them, the latter held to
    /// at most `SUPER_UNITS - 1`.
    pub fn new(beats: u32, super_beats: u32) -> (t: MusicalTime)
        ensures
            t.wf(),
            t@ == beats * SUPER_UNITS + if super_beats < SUPER_UNITS {
                super_beats as int
            } else {
                SUPER_UNITS - 1
            },
    {
        let sb: u32 = if super_beats < SUPER_BEAT_TICKS_PER_BEAT {
            super_beats
        } else {
            SUPER_BEAT_TICKS_PER_BEAT - 1
        };
        MusicalTime { beats, super_beats: sb }
    }

    /// The whole beats of this time.
    pub fn beats(&self) -> (b: u32)
        ensures
            b == self@ / (SUPER_UNITS as nat),
    {
        proof {
            use_type_invariant(self);
        }
        self.beats
    }

    /// The super-beats after the whole beats of this time, always below `SUPER_UNITS`.
    pub fn super_beats(&self) -> (s: u32)
        ensures
            s == self@ % (SUPER_UNITS as nat),
            s < SUPER_UNITS,
    {
        proof {
            use_type_invariant(self);
        }
        self.super_beats
    }

    /// The super-beats after the whole beats of this time, always below `SUPER_UNITS`.
    pub fn ticks(&self) -> (s: u32)
        ensures
            s == self@ % (SUPER_UNITS as nat),
            s < SUPER_UNITS,
    {
        self.super_beats()
    }

    /// This time in super-beats after zero.
    pub fn total_super_beats(&self) -> (n: u64)
        ensures
            n == self@,
    {
        proof {
            use_type_invariant(self);
        }
        (self.beats as u64) * SUPER_UNITS + (self.super_beats as u64)
    }

    /// The time that lies `total` super-beats after zero, or `None` where that is more
    /// beats than a time can hold.
    pub fn from_super_beats(total: u64) -> (t: Option<MusicalTime>)
        ensures
            t is Some <==> total < musical_time_limit(),
            t matches Some(time) ==> time.wf() && time@ == total,
    {
        let beats: u64 = total / SUPER_UNITS;
        if beats > 0xFFFF_FFFF {
            None
        } else {
            Some(MusicalTime { beats: beats as u32, super_beats: (total % SUPER_UNITS) as u32 })
        }
    }

    /// `beats` whole beats.
    pub fn from_beats(beats: u32) -> (t: MusicalTime)
        ensures
            t.wf(),
            t@ == beats * SUPER_UNITS,
    {
        MusicalTime { beats, super_beats: 0 }
    }

    /// `beats` whole beats and `numerator` parts of a beat cut into `divisor` equal parts,
    /// the numerator held to at most `divisor - 1`.
    pub fn from_fractional_beats(beats: u32, numerator: u32, divisor: u32) -> (t: MusicalTime)
        requires
            0 < divisor <= SUPER_UNITS,
        ensures
            t.wf(),
            t@ == fraction_view(beats, numerator, divisor as nat),
    {
        let n: u32 = if numerator < divisor {
            numerator
        } else {
            divisor - 1
        };
        let unit: u32 = SUPER_BEAT_TICKS_PER_BEAT / divisor;
        assert(n * unit <= (divisor - 1) * unit < SUPER_UNITS) by (nonlinear_arith)
            requires
                0 <= n <= divisor - 1,
                0 < divisor <= SUPER_UNITS,
                unit == SUPER_UNITS / (divisor as u64),
        ;
        MusicalTime { beats, super_beats: n * unit }
    }

    /// `beats` whole beats and `half_beats` half-beats after them, the latter held to the
    /// range `[0, 1]`.
    pub fn from_half_beats(beats: u32, half_beats: u32) -> (t: MusicalTime)
        ensures
            t.wf(),
            t@ == fraction_view(beats, half_beats, 2),
    {
        MusicalTime::from_fractional_beats(beats, half_beats, 2)
    }

    /// `beats` whole beats and `quarter_beats` quarter-beats after them, the latter held to the
    /// range `[0, 3]`.
    pub fn from_quarter_beats(beats: u32, quarter_beats: u32) -> (t: MusicalTime)
        ensures
            t.wf(),
            t@ == fraction_view(beats, quarter_beats, 4),
    {
        MusicalTime::from_fractional_beats(beats, quarter_beats, 4)
    }

    /// `beats` whole beats and `eighth_beats` eighth-beats after them, the latter held to the
    /// range `[0, 7]`.
    pub fn from_eighth_beats(beats: u32, eighth_beats: u32) -> (t: MusicalTime)
        ensures
            t.wf(),
            t@ == fraction_view(beats, eighth_beats, 8),
    {
        MusicalTime::from_fractional_beats(beats, eighth_beats, 8)
    }

    /// `beats` whole beats and `sixteenth_beats` sixteenth-beats after them, the latter held to the
    /// range `[0, 15]`.
    pub fn from_sixteenth_beats(beats: u32, sixteenth_beats: u32) -> (t: MusicalTime)
        ensures
            t.wf(),
            t@ == fraction_view(beats, sixteenth_beats, 16),
    {
        MusicalTime::from_fractional_beats(beats, sixteenth_beats, 16)
    }

    /// `beats` whole beats and `_32nd_beats` 32nd-beats after them, the latter held to the
    /// range `[0, 31]`.
    pub fn from_32nd_beats(beats: u32, _32nd_beats: u32) -> (t: MusicalTime)
        ensures
            t.wf(),
            t@ == fraction_view(beats, _32nd_beats, 32),
    {
        MusicalTime::from_fractional_beats(beats, _32nd_beats, 32)
    }

    /// `beats` whole beats and `_64th_beats` 64th-beats after them, the latter held to the
    /// range `[0, 63]`.
    pub fn from_64th_beats(beats: u32, _64th_beats: u32) -> (t: MusicalTime)
        ensures
            t.wf(),
            t@ == fraction_view(beats, _64th_beats, 64),
    {
        MusicalTime::from_fractional_beats(beats, _64th_beats, 64)
    }

    /// `beats` whole beats and `_128th_beats` 128th-beats after them, the latter held to the
    /// range `[0, 127]`.
    pub fn from_128th_beats(beats: u32, _128th_beats: u32) -> (t: MusicalTime)
        ensures
            t.wf(),
            t@ == fraction_view(beats, _128th_beats, 128),
    {
        MusicalTime::from_fractional_beats(beats, _128th_beats, 128)
    }

    /// `beats` whole beats and `_256th_beats` 256th-beats after them, the latter held to the
    /// range `[0, 255]`.
    pub fn from_256th_beats(beats: u32, _256th_beats: u32) -> (t: MusicalTime)
        ensures
            t.wf(),
            t@ == fraction_view(beats, _256th_beats, 256),
    {
        MusicalTime::from_fractional_beats(beats, _256th_beats, 256)
    }

    /// `beats` whole beats and `_512th_beats` 512th-beats after them, the latter held to the
    /// range `[0, 511]`.
    pub fn from_512th_beats(beats: u32, _512th_beats: u32) -> (t: MusicalTime)
        ensures
            t.wf(),
            t@ == fraction_view(beats, _512th_beats, 512),
    {
        MusicalTime::from_fractional_beats(beats, _512th_beats, 512)
    }

    /// `beats` whole beats and `_1024th_beats` 1024th-beats after them, the latter held to the
    /// range `[0, 1023]`.
    pub fn from_1024th_beats(beats: u32, _1024th_beats: u32) -> (t: MusicalTime)
        ensures
            t.wf(),
            t@ == fraction_view(beats, _1024th_beats, 1024),
    {
        MusicalTime::from_fractional_beats(beats, _1024th_beats, 1024)
    }

    /// `beats` whole beats and `_2048th_beats` 2048th-beats after them, the latter held to the
    /// range `[0, 2047]`.
    pub fn from_2048th_beats(beats: u32, _2048th_beats: u32) -> (t: MusicalTime)
        ensures
            t.wf(),
            t@ == fraction_view(beats, _2048th_beats, 2048),
    {
        MusicalTime::from_fractional_beats(beats, _2048th_beats, 2048)
    }

    /// `beats` whole beats and `third_beats` third-beats after them, the latter held to the
    /// range `[0, 2]`.
    pub fn from_third_beats(beats: u32, third_beats: u32) -> (t: MusicalTime)
        ensures
            t.wf(),
            t@ == fraction_view(beats, third_beats, 3),
    {
        MusicalTime::from_fractional_beats(beats, third_beats, 3)
    }

    /// `beats` whole beats and `fifth_beats` fifth-beats after them, the latter held to the
    /// range `[0, 4]`.
    pub fn from_fifth_beats(beats: u32, fifth_beats: u32) -> (t: MusicalTime)
        ensures
            t.wf(),
            t@ == fraction_view(beats, fifth_beats, 5),
    {
        MusicalTime::from_fractional_beats(beats, fifth_beats, 5)
    }

    /// `beats` whole beats and `sixth_beats` sixth-beats after them, the latter held to the
    /// range `[0, 5]`.
    pub fn from_sixth_beats(beats: u32, sixth_beats: u32) -> (t: MusicalTime)
        ensures
            t.wf(),
            t@ == fraction_view(beats, sixth_beats, 6),
    {
        MusicalTime::from_fractional_beats(beats, sixth_beats, 6)
    }

    /// `beats` whole beats and `seventh_beats` seventh-beats after them, the latter held to the
    /// range `[0, 6]`.
    pub fn from_seventh_beats(beats: u32, seventh_beats: u32) -> (t: MusicalTime)
        ensures
            t.wf(),
            t@ == fraction_view(beats, seventh_beats, 7),
    {
        MusicalTime::from_fractional_beats(beats, seventh_beats, 7)
    }

    /// `beats` whole beats and `ninth_beats` ninth-beats after them, the latter held to the
    /// range `[0, 8]`.
    pub fn from_ninth_beats(beats: u32, ninth_beats: u32) -> (t: MusicalTime)
        ensures
            t.wf(),
            t@ == fraction_view(beats, ninth_beats, 9),
    {
        MusicalTime::from_fractional_beats(beats, ninth_beats, 9)
    }

    /// `beats` whole beats and `tenth_beats` tenth-beats after them, the latter held to the
    /// range `[0, 9]`.
    pub fn from_tenth_beats(beats: u32, tenth_beats: u32) -> (t: MusicalTime)
        ensures
            t.wf(),
            t@ == fraction_view(beats, tenth_beats, 10),
    {
        MusicalTime::from_fractional_beats(beats, tenth_beats, 10)
    }

    /// `beats` whole beats and `eleventh_beats` eleventh-beats after them, the latter held to the
    /// range `[0, 10]`.
    pub fn from_eleventh_beats(beats: u32, eleventh_beats: u32) -> (t: MusicalTime)
        ensures
            t.wf(),
            t@ == fraction_view(beats, eleventh_beats, 11),
    {
        MusicalTime::from_fractional_beats(beats, eleventh_beats, 11)
    }

    /// `beats` whole beats and `twelth_beats` twelfth-beats after them, the latter held to the
    /// range `[0, 11]`.
    pub fn from_twelth_beats(beats: u32, twelth_beats: u32) -> (t: MusicalTime)
        ensures
            t.wf(),
            t@ == fraction_view(beats, twelth_beats, 12),
    {
        MusicalTime::from_fractional_beats(beats, twelth_beats, 12)
    }

    /// `beats` whole beats and `_24th_beats` 24th-beats after them, the latter held to the
    /// range `[0, 23]`.
    pub fn from_24th_beats(beats: u32, _24th_beats: u32) -> (t: MusicalTime)
        ensures
            t.wf(),
            t@ == fraction_view(beats, _24th_beats, 24),
    {
        MusicalTime::from_fractional_beats(beats, _24th_beats, 24)
    }

    /// This time moved to the nearest whole beat; a time half-way between two beats
    /// moves to the later one.
    pub fn snap_to_nearest_beat(&self) -> (t: MusicalTime)
        requires
            nearest_beat(self@) * SUPER_UNITS < musical_time_limit(),
        ensures
            t.wf(),
            t@ == nearest_beat(self@) * SUPER_UNITS,
    {
        proof {
            use_type_invariant(self);
        }
        let mut beats: u32 = self.beats;
        if self.super_beats >= SUPER_BEAT_TICKS_PER_BEAT / 2 {
            beats = beats + 1;
        }
        MusicalTime { beats, super_beats: 0 }
    }

    /// This time moved to the nearest whole beat, then down to a multiple of
    /// `whole_beats` beats, and one beat past that multiple where the nearest beat lies
    /// at least half of `whole_beats` (rounded down) beyond it.
    pub fn snap_to_nearest_whole_beats(&self, whole_beats: u32) -> (t: MusicalTime)
        requires
            whole_beats > 0,
            snapped_whole_beats(self@, whole_beats as nat) * SUPER_UNITS < musical_time_limit(),
        ensures
            t.wf(),
            t@ == snapped_whole_beats(self@, whole_beats as nat) * SUPER_UNITS,
    {
        proof {
            use_type_invariant(self);
        }
        let mut nearest: u64 = self.beats as u64;
        if self.super_beats >= SUPER_BEAT_TICKS_PER_BEAT / 2 {
            nearest = nearest + 1;
        }
        let step: u64 = whole_beats as u64;
        let over: u64 = nearest % step;
        assert(over <= nearest) by (nonlinear_arith)
            requires
                over == nearest % step,
                step > 0,
        ;
        let floored: u64 = nearest - over;
        let snapped: u64 = if over >= step / 2 {
            floored + 1
        } else {
            floored
        };
        MusicalTime { beats: snapped as u32, super_beats: 0 }
    }

    /// This time moved to a neighbouring multiple of one `DIVISOR`-th of a beat within
    /// its beat: down to the last one, or on to the next where the time lies at least
    /// half such a part (rounded down) beyond the last.
    pub fn snap_to_nearest_fractional_beat<const DIVISOR: u64>(&self) -> (t: MusicalTime)
        requires
            0 < DIVISOR <= SUPER_UNITS,
            snapped_fraction(self@, DIVISOR as nat) < musical_time_limit(),
        ensures
            t.wf(),
            t@ == snapped_fraction(self@, DIVISOR as nat),
    {
        proof {
            use_type_invariant(self);
        }
        let unit: u64 = SUPER_UNITS / DIVISOR;
        let super_beats: u64 = self.super_beats as u64;
        let over: u64 = super_beats % unit;
        assert(over <= super_beats && over < unit) by (nonlinear_arith)
            requires
                over == super_beats % unit,
                unit > 0,
        ;
        let floored: u64 = super_beats - over;
        let nearest: u64 = if over >= unit / 2 {
            floored + unit
        } else {
            floored
        };
        if nearest >= SUPER_UNITS {
            MusicalTime { beats: self.beats + 1, super_beats: (nearest - SUPER_UNITS) as u32 }
        } else {
            MusicalTime { beats: self.beats, super_beats: nearest as u32 }
        }
    }

    /// This time snapped to a neighbouring half-beat, as
    /// `snap_to_nearest_fractional_beat` does with a divisor of 2.
    pub fn snap_to_nearest_half_beat(&self) -> (t: MusicalTime)
        requires
            snapped_fraction(self@, 2) < musical_time_limit(),
        ensures
            t.wf(),
            t@ == snapped_fraction(self@, 2),
    {
        self.snap_to_nearest_fractional_beat::<2>()
    }

    /// This time snapped to a neighbouring quarter-beat, as
    /// `snap_to_nearest_fractional_beat` does with a divisor of 4.
    pub fn snap_to_nearest_quarter_beat(&self) -> (t: MusicalTime)
        requires
            snapped_fraction(self@, 4) < musical_time_limit(),
        ensures
            t.wf(),
            t@ == snapped_fraction(self@, 4),
    {
        self.snap_to_nearest_fractional_beat::<4>()
    }

    /// This time snapped to a neighbouring eighth-beat, as
    /// `snap_to_nearest_fractional_beat` does with a divisor of 8.
    pub fn snap_to_nearest_eigth_beat(&self) -> (t: MusicalTime)
        requires
            snapped_fraction(self@, 8) < musical_time_limit(),
        ensures
            t.wf(),
            t@ == snapped_fraction(self@, 8),
    {
        self.snap_to_nearest_fractional_beat::<8>()
    }

    /// This time snapped to a neighbouring sixteenth-beat, as
    /// `snap_to_nearest_fractional_beat` does with a divisor of 16.
    pub fn snap_to_nearest_sixteenth_beat(&self) -> (t: MusicalTime)
        requires
            snapped_fraction(self@, 16) < musical_time_limit(),
        ensures
            t.wf(),
            t@ == snapped_fraction(self@, 16),
    {
        self.snap_to_nearest_fractional_beat::<16>()
    }

    /// This time snapped to a neighbouring 32nd-beat, as
    /// `snap_to_nearest_fractional_beat` does with a divisor of 32.
    pub fn snap_to_nearest_32nd_beat(&self) -> (t: MusicalTime)
        requires
            snapped_fraction(self@, 32) < musical_time_limit(),
        ensures
            t.wf(),
            t@ == snapped_fraction(self@, 32),
    {
        self.snap_to_nearest_fractional_beat::<32>()
    }

    /// This time snapped to a neighbouring 64th-beat, as
    /// `snap_to_nearest_fractional_beat` does with a divisor of 64.
    pub fn snap_to_nearest_64th_beat(&self) -> (t: MusicalTime)
        requires
            snapped_fraction(self@, 64) < musical_time_limit(),
        ensures
            t.wf(),
            t@ == snapped_fraction(self@, 64),
    {
        self.snap_to_nearest_fractional_beat::<64>()
    }

    /// This time snapped to a neighbouring 128th-beat, as
    /// `snap_to_nearest_fractional_beat` does with a divisor of 128.
    pub fn snap_to_nearest_128th_beat(&self) -> (t: MusicalTime)
        requires
            snapped_fraction(self@, 128) < musical_time_limit(),
        ensures
            t.wf(),
            t@ == snapped_fraction(self@, 128),
    {
        self.snap_to_nearest_fractional_beat::<128>()
    }

    /// This time snapped to a neighbouring 256th-beat, as
    /// `snap_to_nearest_fractional_beat` does with a divisor of 256.
    pub fn snap_to_nearest_256th_beat(&self) -> (t: MusicalTime)
        requires
            snapped_fraction(self@, 256) < musical_time_limit(),
        ensures
            t.wf(),
            t@ == snapped_fraction(self@, 256),
    {
        self.snap_to_nearest_fractional_beat::<256>()
    }

    /// This time snapped to a neighbouring 512th-beat, as
    /// `snap_to_nearest_fractional_beat` does with a divisor of 512.
    pub fn snap_to_nearest_512th_beat(&self) -> (t: MusicalTime)
        requires
            snapped_fraction(self@, 512) < musical_time_limit(),
        ensures
            t.wf(),
            t@ == snapped_fraction(self@, 512),
    {
        self.snap_to_nearest_fractional_beat::<512>()
    }

    /// This time snapped to a neighbouring 1024th-beat, as
    /// `snap_to_nearest_fractional_beat` does with a divisor of 1024.
    pub fn snap_to_nearest_1024th_beat(&self) -> (t: MusicalTime)
        requires
            snapped_fraction(self@, 1024) < musical_time_limit(),
        ensures
            t.wf(),
            t@ == snapped_fraction(self@, 1024),
    {
        self.snap_to_nearest_fractional_beat::<1024>()
    }

    /// This time snapped to a neighbouring 2048th-beat, as
    /// `snap_to_nearest_fractional_beat` does with a divisor of 2048.
    pub fn snap_to_nearest_2048th_beat(&self) -> (t: MusicalTime)
        requires
            snapped_fraction(self@, 2048) < musical_time_limit(),
        ensures
            t.wf(),
            t@ == snapped_fraction(self@, 2048),
    {
        self.snap_to_nearest_fractional_beat::<2048>()
    }

    /// This time snapped to a neighbouring third-beat, as
    /// `snap_to_nearest_fractional_beat` does with a divisor of 3.
    pub fn snap_to_nearest_third_beat(&self) -> (t: MusicalTime)
        requires
            snapped_fraction(self@, 3) < musical_time_limit(),
        ensures
            t.wf(),
            t@ == snapped_fraction(self@, 3),
    {
        self.snap_to_nearest_fractional_beat::<3>()
    }

    /// This time snapped to a neighbouring fifth-beat, as
    /// `snap_to_nearest_fractional_beat` does with a divisor of 5.
    pub fn snap_to_nearest_fifth_beat(&self) -> (t: MusicalTime)
        requires
            snapped_fraction(self@, 5) < musical_time_limit(),
        ensures
            t.wf(),
            t@ == snapped_fraction(self@, 5),
    {
        self.snap_to_nearest_fractional_beat::<5>()
    }

    /// This time snapped to a neighbouring sixth-beat, as
    /// `snap_to_nearest_fractional_beat` does with a divisor of 6.
    pub fn snap_to_nearest_sixth_beat(&self) -> (t: MusicalTime)
        requires
            snapped_fraction(self@, 6) < musical_time_limit(),
        ensures
            t.wf(),
            t@ == snapped_fraction(self@, 6),
    {
        self.snap_to_nearest_fractional_beat::<6>()
    }

    /// This time snapped to a neighbouring seventh-beat, as
    /// `snap_to_nearest_fractional_beat` does with a divisor of 7.
    pub fn snap_to_nearest_seventh_beat(&self) -> (t: MusicalTime)
        requires
            snapped_fraction(self@, 7) < musical_time_limit(),
        ensures
            t.wf(),
            t@ == snapped_fraction(self@, 7),
    {
        self.snap_to_nearest_fractional_beat::<7>()
    }

    /// This time snapped to a neighbouring ninth-beat, as
    /// `snap_to_nearest_fractional_beat` does with a divisor of 9.
    pub fn snap_to_nearest_ninth_beat(&self) -> (t: MusicalTime)
        requires
            snapped_fraction(self@, 9) < musical_time_limit(),
        ensures
            t.wf(),
            t@ == snapped_fraction(self@, 9),
    {
        self.snap_to_nearest_fractional_beat::<9>()
    }

    /// This time snapped to a neighbouring tenth-beat, as
    /// `snap_to_nearest_fractional_beat` does with a divisor of 10.
    pub fn snap_to_nearest_tenth_beat(&self) -> (t: MusicalTime)
        requires
            snapped_fraction(self@, 10) < musical_time_limit(),
        ensures
            t.wf(),
            t@ == snapped_fraction(self@, 10),
    {
        self.snap_to_nearest_fractional_beat::<10>()
    }

    /// This time snapped to a neighbouring eleventh-beat, as
    /// `snap_to_nearest_fractional_beat` does with a divisor of 11.
    pub fn snap_to_nearest_eleventh_beat(&self) -> (t: MusicalTime)
        requires
            snapped_fraction(self@, 11) < musical_time_limit(),
        ensures
            t.wf(),
            t@ == snapped_fraction(self@, 11),
    {
        self.snap_to_nearest_fractional_beat::<11>()
    }

    /// This time snapped to a neighbouring twelfth-beat, as
    /// `snap_to_nearest_fractional_beat` does with a divisor of 12.
    pub fn snap_to_nearest_twelfth_beat(&self) -> (t: MusicalTime)
        requires
            snapped_fraction(self@, 12) < musical_time_limit(),
        ensures
            t.wf(),
            t@ == snapped_fraction(self@, 12),
    {
        self.snap_to_nearest_fractional_beat::<12>()
    }

    /// This time snapped to a neighbouring 24th-beat, as
    /// `snap_to_nearest_fractional_beat` does with a divisor of 24.
    pub fn snap_to_nearest_24th_beat(&self) -> (t: MusicalTime)
        requires
            snapped_fraction(self@, 24) < musical_time_limit(),
        ensures
            t.wf(),
            t@ == snapped_fraction(self@, 24),
    {
        self.snap_to_nearest_fractional_beat::<24>()
    }

    /// The super-beats by which this time lies past the last multiple of one
    /// `DIVISOR`-th of a beat within its beat.
    pub fn num_fractional_beats<const DIVISOR: u64>(&self) -> (n: u32)
        requires
            0 < DIVISOR <= SUPER_UNITS,
        ensures
            n == fraction_remainder(self@, DIVISOR as nat),
            n < SUPER_UNITS / DIVISOR,
    {
        proof {
            use_type_invariant(self);
        }
        let unit: u64 = SUPER_UNITS / DIVISOR;
        assert(0 < unit <= SUPER_UNITS) by (nonlinear_arith)
            requires
                unit == SUPER_UNITS / DIVISOR,
                0 < DIVISOR <= SUPER_UNITS,
        ;
        let super_beats: u64 = self.super_beats as u64;
        (super_beats % unit) as u32
    }

    /// The super-beats by which this time lies past the last half-beat within its beat,
    /// always below `SUPER_UNITS / 2`.
    pub fn num_half_beats(&self) -> (n: u32)
        ensures
            n == fraction_remainder(self@, 2),
            n < SUPER_UNITS / 2,
    {
        self.num_fractional_beats::<2>()
    }

    /// The super-beats by which this time lies past the last quarter-beat within its beat,
    /// always below `SUPER_UNITS / 4`.
    pub fn num_quarter_beats(&self) -> (n: u32)
        ensures
            n == fraction_remainder(self@, 4),
            n < SUPER_UNITS / 4,
    {
        self.num_fractional_beats::<4>()
    }

    /// The super-beats by which this time lies past the last eighth-beat within its beat,
    /// always below `SUPER_UNITS / 8`.
    pub fn num_eigth_beats(&self) -> (n: u32)
        ensures
            n == fraction_remainder(self@, 8),
            n < SUPER_UNITS / 8,
    {
        self.num_fractional_beats::<8>()
    }

    /// The super-beats by which this time lies past the last sixteenth-beat within its beat,
    /// always below `SUPER_UNITS / 16`.
    pub fn num_sixteenth_beats(&self) -> (n: u32)
        ensures
            n == fraction_remainder(self@, 16),
            n < SUPER_UNITS / 16,
    {
        self.num_fractional_beats::<16>()
    }

    /// The super-beats by which this time lies past the last 32nd-beat within its beat,
    /// always below `SUPER_UNITS / 32`.
    pub fn num_32nd_beats(&self) -> (n: u32)
        ensures
            n == fraction_remainder(self@, 32),
            n < SUPER_UNITS / 32,
    {
        self.num_fractional_beats::<32>()
    }

    /// The super-beats by which this time lies past the last 64th-beat within its beat,
    /// always below `SUPER_UNITS / 64`.
    pub fn num_64th_beats(&self) -> (n: u32)
        ensures
            n == fraction_remainder(self@, 64),
            n < SUPER_UNITS / 64,
    {
        self.num_fractional_beats::<64>()
    }

    /// The super-beats by which this time lies past the last 128th-beat within its beat,
    /// always below `SUPER_UNITS / 128`.
    pub fn num_128th_beats(&self) -> (n: u32)
        ensures
            n == fraction_remainder(self@, 128),
            n < SUPER_UNITS / 128,
    {
        self.num_fractional_beats::<128>()
    }

    /// The super-beats by which this time lies past the last 256th-beat within its beat,
    /// always below `SUPER_UNITS / 256`.
    pub fn num_256th_beats(&self) -> (n: u32)
        ensures
            n == fraction_remainder(self@, 256),
            n < SUPER_UNITS / 256,
    {
        self.num_fractional_beats::<256>()
    }

    /// The super-beats by which this time lies past the last 512th-beat within its beat,
    /// always below `SUPER_UNITS / 512`.
    pub fn num_512th_beats(&self) -> (n: u32)
        ensures
            n == fraction_remainder(self@, 512),
            n < SUPER_UNITS / 512,
    {
        self.num_fractional_beats::<512>()
    }

    /// The super-beats by which this time lies past the last 1024th-beat within its beat,
    /// always below `SUPER_UNITS / 1024`.
    pub fn num_1024th_beats(&self) -> (n: u32)
        ensures
            n == fraction_remainder(self@, 1024),
            n < SUPER_UNITS / 1024,
    {
        self.num_fractional_beats::<1024>()
    }

    /// The super-beats by which this time lies past the last 2048th-beat within its beat,
    /// always below `SUPER_UNITS / 2048`.
    pub fn num_2048th_beats(&self) -> (n: u32)
        ensures
            n == fraction_remainder(self@, 2048),
            n < SUPER_UNITS / 2048,
    {
        self.num_fractional_beats::<2048>()
    }

    /// The super-beats by which this time lies past the last third-beat within its beat,
    /// always below `SUPER_UNITS / 3`.
    pub fn num_third_beats(&self) -> (n: u32)
        ensures
            n == fraction_remainder(self@, 3),
            n < SUPER_UNITS / 3,
    {
        self.num_fractional_beats::<3>()
    }

    /// The super-beats by which this time lies past the last fifth-beat within its beat,
    /// always below `SUPER_UNITS / 5`.
    pub fn num_fifth_beats(&self) -> (n: u32)
        ensures
            n == fraction_remainder(self@, 5),
            n < SUPER_UNITS / 5,
    {
        self.num_fractional_beats::<5>()
    }

    /// The super-beats by which this time lies past the last sixth-beat within its beat,
    /// always below `SUPER_UNITS / 6`.
    pub fn num_sixth_beats(&self) -> (n: u32)
        ensures
            n == fraction_remainder(self@, 6),
            n < SUPER_UNITS / 6,
    {
        self.num_fractional_beats::<6>()
    }

    /// The super-beats by which this time lies past the last seventh-beat within its beat,
    /// always below `SUPER_UNITS / 7`.
    pub fn num_seventh_beats(&self) -> (n: u32)
        ensures
            n == fraction_remainder(self@, 7),
            n < SUPER_UNITS / 7,
    {
        self.num_fractional_beats::<7>()
    }

    /// The super-beats by which this time lies past the last ninth-beat within its beat,
    /// always below `SUPER_UNITS / 9`.
    pub fn num_ninth_beats(&self) -> (n: u32)
        ensures
            n == fraction_remainder(self@, 9),
            n < SUPER_UNITS / 9,
    {
        self.num_fractional_beats::<9>()
    }

    /// The super-beats by which this time lies past the last tenth-beat within its beat,
    /// always below `SUPER_UNITS / 10`.
    pub fn num_tenth_beats(&self) -> (n: u32)
        ensures
            n == fraction_remainder(self@, 10),
            n < SUPER_UNITS / 10,
    {
        self.num_fractional_beats::<10>()
    }

    /// The super-beats by which this time lies past the last eleventh-beat within its beat,
    /// always below `SUPER_UNITS / 11`.
    pub fn num_eleventh_beats(&self) -> (n: u32)
        ensures
            n == fraction_remainder(self@, 11),
            n < SUPER_UNITS / 11,
    {
        self.num_fractional_beats::<11>()
    }

    /// The super-beats by which this time lies past the last twelfth-beat within its beat,
    /// always below `SUPER_UNITS / 12`.
    pub fn num_twelfth_beats(&self) -> (n: u32)
        ensures
            n == fraction_remainder(self@, 12),
            n < SUPER_UNITS / 12,
    {
        self.num_fractional_beats::<12>()
    }

    /// The super-beats by which this time lies past the last 24th-beat within its beat,
    /// always below `SUPER_UNITS / 24`.
    pub fn num_24th_beats(&self) -> (n: u32)
        ensures
            n == fraction_remainder(self@, 24),
            n < SUPER_UNITS / 24,
    {
        self.num_fractional_beats::<24>()
    }

    /// `self - rhs`, or `None` where `rhs` is later than `self`.
    pub fn checked_sub(self, rhs: MusicalTime) -> (d: Option<MusicalTime>)
        ensures
            self@ < rhs@ <==> d is None,
            d matches Some(t) ==> t.wf() && t@ == self@ - rhs@,
    {
        proof {
            use_type_invariant(self);
            use_type_invariant(rhs);
        }
        if self.beats < rhs.beats {
            None
        } else if self.super_beats >= rhs.super_beats {
            Some(
                MusicalTime {
                    beats: self.beats - rhs.beats,
                    super_beats: self.super_beats - rhs.super_beats,
                },
            )
        } else if self.beats == rhs.beats {
            None
        } else {
            Some(
                MusicalTime {
                    beats: self.beats - rhs.beats - 1,
                    super_beats: self.super_beats + (SUPER_BEAT_TICKS_PER_BEAT - rhs.super_beats),
                },
            )
        }
    }
}

/// The super-beats of `beats` whole beats and `numerator` parts of a beat cut into
/// `divisor` equal parts, the numerator held to at most `divisor - 1`.
pub open spec fn fraction_view(beats: u32, numerator: u32, divisor: nat) -> nat {
    let n = if numerator < divisor {
        numerator as nat
    } else {
        (divisor - 1) as nat
    };
    (beats * SUPER_UNITS + n * ((SUPER_UNITS as nat) / divisor)) as nat
}

/// The beat nearest to a time of `n` super-beats; half-way counts as the later beat.
pub open spec fn nearest_beat(n: nat) -> nat {
    (n + (SUPER_UNITS as nat) / 2) / (SUPER_UNITS as nat)
}

/// The beat that a time of `n` super-beats is snapped to on a grid of `whole_beats`
/// beats: the last grid beat at or before the nearest beat, and one beat more where the
/// nearest beat lies at least `whole_beats / 2` past it.
pub open spec fn snapped_whole_beats(n: nat, whole_beats: nat) -> nat {
    let nearest = nearest_beat(n);
    let over = nearest % whole_beats;
    if over >= whole_beats / 2 {
        (nearest - over + 1) as nat
    } else {
        (nearest - over) as nat
    }
}

/// The super-beats by which a time of `n` super-beats lies past the last multiple of
/// one `divisor`-th of a beat within its beat.
pub open spec fn fraction_remainder(n: nat, divisor: nat) -> nat {
    (n % (SUPER_UNITS as nat)) % ((SUPER_UNITS as nat) / divisor)
}

/// The super-beats that a time of `n` super-beats is snapped to on a grid of one
/// `divisor`-th of a beat: the last grid point, or the next one where the time lies at
/// least half a grid step (rounded down) past the last.
pub open spec fn snapped_fraction(n: nat, divisor: nat) -> nat {
    let unit = (SUPER_UNITS as nat) / divisor;
    let over = fraction_remainder(n, divisor);
    if over >= unit / 2 {
        (n - over + unit) as nat
    } else {
        (n - over) as nat
    }
}

impl PartialOrd for MusicalTime {
    /// How this time stands to `other`: earlier, the same or later.
    fn partial_cmp(&self, other: &MusicalTime) -> (r: Option<Ordering>) {
        proof {
            use_type_invariant(self);
            use_type_invariant(other);
        }
        if self.beats < other.beats {
            Some(Ordering::Less)
        } else if self.beats > other.beats {
            Some(Ordering::Greater)
        } else if self.super_beats < other.super_beats {
            Some(Ordering::Less)
        } else if self.super_beats > other.super_beats {
            Some(Ordering::Greater)
        } else {
            Some(Ordering::Equal)
        }
    }
}

impl PartialOrdSpecImpl for MusicalTime {
    open spec fn obeys_partial_cmp_spec() -> bool {
        true
    }

    open spec fn partial_cmp_spec(&self, other: &MusicalTime) -> Option<Ordering> {
        if self@ < other@ {
            Some(Ordering::Less)
        } else if self@ > other@ {
            Some(Ordering::Greater)
        } else {
            Some(Ordering::Equal)
        }
    }
}

impl Default for MusicalTime {
    /// The start of musical time.
    fn default() -> (t: MusicalTime)
        ensures
            t.wf(),
            t@ == 0,
    {
        MusicalTime { beats: 0, super_beats: 0 }
    }
}

impl std::ops::Add<MusicalTime> for MusicalTime {
    type Output = MusicalTime;

    /// The time `rhs` super-beats after `self`.
    fn add(self, rhs: MusicalTime) -> (t: MusicalTime) {
        proof {
            use_type_invariant(self);
            use_type_invariant(rhs);
        }
        let sum: u32 = self.super_beats + rhs.super_beats;
        if sum >= SUPER_BEAT_TICKS_PER_BEAT {
            MusicalTime {
                beats: self.beats + rhs.beats + 1,
                super_beats: sum - SUPER_BEAT_TICKS_PER_BEAT,
            }
        } else {
            MusicalTime { beats: self.beats + rhs.beats, super_beats: sum }
        }
    }
}

impl vstd::std_specs::ops::AddSpecImpl<MusicalTime> for MusicalTime {
    open spec fn obeys_add_spec() -> bool {
        true
    }

    open spec fn add_req(self, rhs: MusicalTime) -> bool {
        self@ + rhs@ < musical_time_limit()
    }

    open spec fn add_spec(self, rhs: MusicalTime) -> MusicalTime {
        MusicalTime::from_view(self@ + rhs@)
    }
}

impl std::ops::Sub<MusicalTime> for MusicalTime {
    type Output = MusicalTime;

    /// The time `rhs` super-beats before `self`.
    fn sub(self, rhs: MusicalTime) -> (t: MusicalTime) {
        proof {
            use_type_invariant(self);
            use_type_invariant(rhs);
        }
        if self.super_beats >= rhs.super_beats {
            MusicalTime {
                beats: self.beats - rhs.beats,
                super_beats: self.super_beats - rhs.super_beats,
            }
        } else {
            MusicalTime {
                beats: self.beats - rhs.beats - 1,
                super_beats: self.super_beats + (SUPER_BEAT_TICKS_PER_BEAT - rhs.super_beats),
            }
        }
    }
}

impl vstd::std_specs::ops::SubSpecImpl<MusicalTime> for MusicalTime {
    open spec fn obeys_sub_spec() -> bool {
        true
    }

    open spec fn sub_req(self, rhs: MusicalTime) -> bool {
        rhs@ <= self@
    }

    open spec fn sub_spec(self, rhs: MusicalTime) -> MusicalTime {
        MusicalTime::from_view((self@ - rhs@) as nat)
    }
}

impl std::ops::Mul<u32> for MusicalTime {
    type Output = MusicalTime;

    /// The time `rhs` times as far from zero as `self`.
    fn mul(self, rhs: u32) -> (t: MusicalTime) {
        proof {
            use_type_invariant(self);
        }
        let factor: u64 = rhs as u64;
        assert(self.super_beats * factor <= 1_241_855_999 * 0xFFFF_FFFF) by (nonlinear_arith)
            requires
                self.super_beats <= 1_241_855_999,
                factor <= 0xFFFF_FFFF,
        ;
        assert(self.beats * factor <= 0xFFFF_FFFF * 0xFFFF_FFFF) by (nonlinear_arith)
            requires
                self.beats <= 0xFFFF_FFFF,
                factor <= 0xFFFF_FFFF,
        ;
        let fine: u64 = (self.super_beats as u64) * factor;
        let carry: u64 = fine / SUPER_UNITS;
        let coarse: u64 = (self.beats as u64) * factor + carry;
        assert(self@ * rhs == coarse * SUPER_UNITS + fine % SUPER_UNITS) by (nonlinear_arith)
            requires
                self@ == self.beats * SUPER_UNITS + self.super_beats,
                fine == self.super_beats * rhs,
                carry == fine / SUPER_UNITS,
                coarse == self.beats * rhs + carry,
                SUPER_UNITS > 0,
        ;
        MusicalTime { beats: coarse as u32, super_beats: (fine % SUPER_UNITS) as u32 }
    }
}

impl vstd::std_specs::ops::MulSpecImpl<u32> for MusicalTime {
    open spec fn obeys_mul_spec() -> bool {
        true
    }

    open spec fn mul_req(self, rhs: u32) -> bool {
        self@ * rhs < musical_time_limit()
    }

    open spec fn mul_spec(self, rhs: u32) -> MusicalTime {
        MusicalTime::from_view(self@ * (rhs as nat))
    }
}

impl std::ops::AddAssign<MusicalTime> for MusicalTime {
    /// Moves this time `other` super-beats later.
    fn add_assign(&mut self, other: MusicalTime)
        requires
            old(self)@ + other@ < musical_time_limit(),
        ensures
            final(self).wf(),
            final(self)@ == old(self)@ + other@,
    {
        *self = *self + other;
    }
}

impl std::ops::SubAssign<MusicalTime> for MusicalTime {
    /// Moves this time `other` super-beats earlier.
    fn sub_assign(&mut self, other: MusicalTime)
        requires
            other@ <= old(self)@,
        ensures
            final(self).wf(),
            final(self)@ == old(self)@ - other@,
    {
        proof {
            use_type_invariant(&*self);
        }
        *self = *self - other;
    }
}

impl std::ops::MulAssign<u32> for MusicalTime {
    /// Moves this time to `other` times its distance from zero.
    fn mul_assign(&mut self, other: u32)
        requires
            old(self)@ * other < musical_time_limit(),
        ensures
            final(self).wf(),
            final(self)@ == old(self)@ * other,
    {
        *self = *self * other;
    }
}

/// The time that lies `n` super-beats after zero is well-formed and has the view `n`,
/// for every `n` below the limit.
pub proof fn lemma_from_view(n: nat)
    requires
        n < musical_time_limit(),
    ensures
        MusicalTime::from_view(n).wf(),
        MusicalTime::from_view(n)@ == n,
{
}

/// A well-formed time is fixed by its view, and its view is below the limit.
pub proof fn lemma_view_determines(a: MusicalTime, b: MusicalTime)
    requires
        a.wf(),
        b.wf(),
    ensures
        a@ < musical_time_limit(),
        a@ == b@ <==> a == b,
{
}

/// One beat splits without remainder into each of the usual subdivisions: 2 to 12 parts,
/// 14, 15, 16, 18, 20 and 24 parts, every power of two up to 2048, and 1920 parts.
pub proof fn lemma_super_units_divisible()
    ensures
        forall|d: nat| 1 <= d <= 12 ==> #[trigger] ((SUPER_UNITS as nat) % d) == 0,
        SUPER_UNITS % 14 == 0,
        SUPER_UNITS % 15 == 0,
        SUPER_UNITS % 16 == 0,
        SUPER_UNITS % 18 == 0,
        SUPER_UNITS % 20 == 0,
        SUPER_UNITS % 24 == 0,
        SUPER_UNITS % 32 == 0,
        SUPER_UNITS % 64 == 0,
        SUPER_UNITS % 128 == 0,
        SUPER_UNITS % 256 == 0,
        SUPER_UNITS % 512 == 0,
        SUPER_UNITS % 1024 == 0,
        SUPER_UNITS % 2048 == 0,
        SUPER_UNITS % 1920 == 0,
{
    assert forall|d: nat| 1 <= d <= 12 implies #[trigger] ((SUPER_UNITS as nat) % d) == 0 by {
        if d == 1 {
        } else if d == 2 {
        } else if d == 3 {
        } else if d == 4 {
        } else if d == 5 {
        } else if d == 6 {
        } else if d == 7 {
        } else if d == 8 {
        } else if d == 9 {
        } else if d == 10 {
        } else if d == 11 {
        } else {
            assert(d == 12);
        }
    }
}

/// A multiple of `unit` below `unit * divisor`, put after whole beats of that length, has
/// no remainder on the grid of `unit`.
proof fn lemma_grid_point(beats: nat, steps: nat, unit: nat, divisor: nat)
    requires
        unit > 0,
        unit == (SUPER_UNITS as nat) / divisor,
        0 < divisor <= SUPER_UNITS,
        unit * steps < SUPER_UNITS,
    ensures
        fraction_remainder(beats * (SUPER_UNITS as nat) + unit * steps, divisor) == 0,
{
    let n = beats * (SUPER_UNITS as nat) + unit * steps;
    lemma_fundamental_div_mod_converse(
        n as int,
        SUPER_UNITS as int,
        beats as int,
        (unit * steps) as int,
    );
    lemma_fundamental_div_mod_converse((unit * steps) as int, unit as int, steps as int, 0);
}

/// A time made from a numerator and a divisor lies on the grid of that divisor.
pub proof fn lemma_fraction_on_grid(beats: u32, numerator: u32, divisor: nat)
    requires
        0 < divisor <= SUPER_UNITS,
    ensures
        fraction_remainder(fraction_view(beats, numerator, divisor), divisor) == 0,
        fraction_view(beats, numerator, divisor) < musical_time_limit(),
{
    let unit = (SUPER_UNITS as nat) / divisor;
    let steps = if numerator < divisor {
        numerator as nat
    } else {
        (divisor - 1) as nat
    };
    assert(unit >= 1 && unit * divisor <= SUPER_UNITS) by (nonlinear_arith)
        requires
            unit == (SUPER_UNITS as nat) / divisor,
            0 < divisor <= SUPER_UNITS,
    ;
    assert(unit * steps < SUPER_UNITS) by (nonlinear_arith)
        requires
            unit * divisor <= SUPER_UNITS,
            steps <= divisor - 1,
            unit >= 1,
    ;
    assert(steps * unit == unit * steps) by (nonlinear_arith);
    lemma_grid_point(beats as nat, steps, unit, divisor);
}

/// Where `divisor` divides a beat, a snapped time lies on the grid of that divisor, at
/// most half a grid step from the time it was snapped from.
pub proof fn lemma_snapped_fraction_on_grid(n: nat, divisor: nat)
    requires
        0 < divisor <= SUPER_UNITS,
        (SUPER_UNITS as nat) % divisor == 0,
    ensures
        fraction_remainder(snapped_fraction(n, divisor), divisor) == 0,
        n - snapped_fraction(n, divisor) < ((SUPER_UNITS as nat) / divisor + 1) / 2,
        snapped_fraction(n, divisor) - n <= ((SUPER_UNITS as nat) / divisor + 1) / 2,
{
    let full = SUPER_UNITS as nat;
    let unit = full / divisor;
    lemma_fundamental_div_mod(full as int, divisor as int);
    let beats = n / full;
    let fine = n % full;
    lemma_fundamental_div_mod(n as int, full as int);
    let steps = fine / unit;
    let over = fine % unit;
    lemma_fundamental_div_mod(fine as int, unit as int);
    assert(steps < divisor) by (nonlinear_arith)
        requires
            fine == unit * steps + over,
            over >= 0,
            fine < full,
            unit * divisor == full,
            unit >= 1,
    ;
    if over >= unit / 2 {
        assert(snapped_fraction(n, divisor) == beats * full + unit * (steps + 1)) by (nonlinear_arith)
            requires
                snapped_fraction(n, divisor) == n - over + unit,
                n == full * beats + fine,
                fine == unit * steps + over,
        ;
        if steps + 1 == divisor {
            lemma_grid_point(beats + 1, 0, unit, divisor);
        } else {
            assert(unit * (steps + 1) < full) by (nonlinear_arith)
                requires
                    unit * divisor == full,
                    steps + 1 < divisor,
                    unit >= 1,
            ;
            lemma_grid_point(beats, steps + 1, unit, divisor);
        }
    } else {
        lemma_grid_point(beats, steps, unit, divisor);
    }
}

/// The nearest beat lies at most half a beat from the time.
pub proof fn lemma_nearest_beat_is_near(n: nat)
    ensures
        n - nearest_beat(n) * SUPER_UNITS < SUPER_UNITS / 2,
        nearest_beat(n) * SUPER_UNITS - n <= SUPER_UNITS / 2,
{
}

/// Taking a time away and putting it back gives the time one began with, and so does
/// putting it on and taking it away.
pub proof fn lemma_add_sub_inverse(a: MusicalTime, b: MusicalTime)
    requires
        a.wf(),
        b.wf(),
    ensures
        b@ <= a@ ==> MusicalTime::from_view(MusicalTime::from_view((a@ - b@) as nat)@ + b@) == a,
        a@ + b@ < musical_time_limit() ==> MusicalTime::from_view(
            (MusicalTime::from_view(a@ + b@)@ - b@) as nat,
        ) == a,
{
    lemma_view_determines(a, b);
    lemma_from_view(a@);
    lemma_view_determines(a, MusicalTime::from_view(a@));
    if b@ <= a@ {
        lemma_from_view((a@ - b@) as nat);
    }
    if a@ + b@ < musical_time_limit() {
        lemma_from_view(a@ + b@);
    }
}

} // verus!
