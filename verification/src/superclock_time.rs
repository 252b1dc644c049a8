use crate::sample_time::{FrameTime, SampleTime};
use crate::super_time::{div_round, frames_to_ticks, is_standard_rate, standard_period};
use crate::super_time::{lemma_standard_rates_divide, ticks_to_frames_round};
use std::cmp::Ordering;
use vstd::arithmetic::div_mod::lemma_fundamental_div_mod;
use vstd::prelude::*;
use vstd::std_specs::cmp::PartialOrdSpecImpl;

verus! {

/// The number of superclock ticks in one second.
///
/// Every standard sample rate divides it.
pub const SUPERCLOCK_TICKS_PER_SECOND: u64 = 282_240_000;

/// One more than the largest number of ticks a `SuperclockTime` can hold.
pub open spec fn superclock_limit() -> nat {
    0x1_0000_0000 * 282_240_000
}

/// A length of time on the superclock: whole seconds and the ticks after them.
///
/// Its view is the length in ticks, `seconds * SUPERCLOCK_TICKS_PER_SECOND + ticks`.
#[derive(Debug, Clone, Copy, PartialEq, Eq, Structural, Ord, Hash)]
pub struct SuperclockTime {
    seconds: u32,
    ticks: u32,
}

impl View for SuperclockTime {
    type V = nat;

    closed spec fn view(&self) -> nat {
        (self.seconds as nat) * (SUPERCLOCK_TICKS_PER_SECOND as nat) + (self.ticks as nat)
    }
}

impl PartialOrd for SuperclockTime {
    /// How this length stands to `other`: earlier, the same or later.
    fn partial_cmp(&self, other: &SuperclockTime) -> (r: Option<Ordering>) {
        proof {
            use_type_invariant(self);
            use_type_invariant(other);
        }
        if self.seconds < other.seconds {
            Some(Ordering::Less)
        } else if self.seconds > other.seconds {
            Some(Ordering::Greater)
        } else if self.ticks < other.ticks {
            Some(Ordering::Less)
        } else if self.ticks > other.ticks {
            Some(Ordering::Greater)
        } else {
            Some(Ordering::Equal)
        }
    }
}

impl PartialOrdSpecImpl for SuperclockTime {
    open spec fn obeys_partial_cmp_spec() -> bool {
        true
    }

    open spec fn partial_cmp_spec(&self, other: &SuperclockTime) -> Option<Ordering> {
        if self@ < other@ {
            Some(Ordering::Less)
        } else if self@ > other@ {
            Some(Ordering::Greater)
        } else {
            Some(Ordering::Equal)
        }
    }
}

impl Default for SuperclockTime {
    /// A length of zero.
    fn default() -> (t: SuperclockTime)
        ensures
            t.wf(),
            t@ == 0,
    {
        SuperclockTime { seconds: 0, ticks: 0 }
    }
}

impl SuperclockTime {
    /// The ticks stay below one second.
    #[verifier::type_invariant]
    pub closed spec fn wf(self) -> bool {
        self.ticks < SUPERCLOCK_TICKS_PER_SECOND
    }

    /// `seconds` whole seconds and `ticks` ticks after them, the latter held to at most
    /// `SUPERCLOCK_TICKS_PER_SECOND - 1`.
    pub fn new(seconds: u32, ticks: u32) -> (t: SuperclockTime)
        ensures
            t.wf(),
            t@ == seconds * SUPERCLOCK_TICKS_PER_SECOND + if ticks < SUPERCLOCK_TICKS_PER_SECOND {
                ticks as int
            } else {
                SUPERCLOCK_TICKS_PER_SECOND - 1
            },
    {
        let fine: u32 = if ticks < 282_240_000 {
            ticks
        } else {
            282_240_000 - 1
        };
        SuperclockTime { seconds, ticks: fine }
    }

    /// The length of `n` ticks.
    pub closed spec fn from_view(n: nat) -> SuperclockTime {
        SuperclockTime {
            seconds: (n / (SUPERCLOCK_TICKS_PER_SECOND as nat)) as u32,
            ticks: (n % (SUPERCLOCK_TICKS_PER_SECOND as nat)) as u32,
        }
    }

    /// The whole seconds of this length.
    pub fn seconds(&self) -> (s: u32)
        ensures
            s == self@ / (SUPERCLOCK_TICKS_PER_SECOND as nat),
    {
        proof {
            use_type_invariant(self);
        }
        self.seconds
    }

    /// The ticks after the whole seconds of this length, always below
    /// `SUPERCLOCK_TICKS_PER_SECOND`.
    pub fn ticks(&self) -> (t: u32)
        ensures
            t == self@ % (SUPERCLOCK_TICKS_PER_SECOND as nat),
            t < SUPERCLOCK_TICKS_PER_SECOND,
    {
        proof {
            use_type_invariant(self);
        }
        self.ticks
    }

    /// This length in ticks.
    pub fn total_ticks(&self) -> (n: u64)
        ensures
            n == self@,
    {
        proof {
            use_type_invariant(self);
        }
        (self.seconds as u64) * SUPERCLOCK_TICKS_PER_SECOND + (self.ticks as u64)
    }

    /// The length of `total` ticks, or `None` where that is more seconds than a length
    /// can hold.
    pub fn from_total_ticks(total: u64) -> (t: Option<SuperclockTime>)
        ensures
            t is Some <==> total < superclock_limit(),
            t matches Some(time) ==> time.wf() && time@ == total,
    {
        let seconds: u64 = total / SUPERCLOCK_TICKS_PER_SECOND;
        if seconds > 0xFFFF_FFFF {
            None
        } else {
            Some(
                SuperclockTime {
                    seconds: seconds as u32,
                    ticks: (total % SUPERCLOCK_TICKS_PER_SECOND) as u32,
                },
            )
        }
    }

    /// The length that `count` frames last at `hz` frames per second, where one frame
    /// is `period` ticks.
    fn from_count(count: u64, hz: u64, period: u64) -> (t: SuperclockTime)
        requires
            is_standard_rate(hz),
            period == SUPERCLOCK_TICKS_PER_SECOND / hz,
            count * period < superclock_limit(),
        ensures
            t.wf(),
            t@ == count * period,
    {
        let whole: u64 = count / hz;
        let rest: u64 = count % hz;
        proof {
            lemma_standard_rates_divide(282_240_000, hz);
            lemma_fundamental_div_mod(count as int, hz as int);
            assert(rest * period <= (hz - 1) * period) by (nonlinear_arith)
                requires
                    rest <= hz - 1,
                    period >= 0,
            ;
            assert((hz - 1) * period == SUPERCLOCK_TICKS_PER_SECOND - period) by (nonlinear_arith)
                requires
                    period * hz == SUPERCLOCK_TICKS_PER_SECOND,
            ;
            assert(count * period == whole * SUPERCLOCK_TICKS_PER_SECOND + rest * period)
                by (nonlinear_arith)
                requires
                    count == hz * whole + rest,
                    period * hz == SUPERCLOCK_TICKS_PER_SECOND,
            ;
        }
        SuperclockTime { seconds: whole as u32, ticks: (rest * period) as u32 }
    }

    /// The length that `frame` lasts at a standard sample rate of `sample_rate_hz`
    /// frames per second, which loses nothing; `None` at any other rate.
    pub fn from_frame(frame: FrameTime, sample_rate_hz: u64) -> (s: Option<SuperclockTime>)
        requires
            is_standard_rate(sample_rate_hz) ==> frames_to_ticks(
                frame@,
                SUPERCLOCK_TICKS_PER_SECOND,
                sample_rate_hz,
            ) < superclock_limit(),
        ensures
            s is Some <==> is_standard_rate(sample_rate_hz),
            s matches Some(t) ==> t.wf() && t@ == frames_to_ticks(
                frame@,
                SUPERCLOCK_TICKS_PER_SECOND,
                sample_rate_hz,
            ),
    {
        match standard_period(SUPERCLOCK_TICKS_PER_SECOND, sample_rate_hz) {
            Some(period) => Some(SuperclockTime::from_count(frame.0, sample_rate_hz, period)),
            None => None,
        }
    }

    /// The length that `sample` lasts at a standard sample rate of `sample_rate_hz`
    /// samples per second, which loses nothing; `None` at any other rate.
    pub fn from_sample(sample: SampleTime, sample_rate_hz: u64) -> (s: Option<SuperclockTime>)
        requires
            is_standard_rate(sample_rate_hz) ==> frames_to_ticks(
                sample@,
                SUPERCLOCK_TICKS_PER_SECOND,
                sample_rate_hz,
            ) < superclock_limit(),
        ensures
            s is Some <==> is_standard_rate(sample_rate_hz),
            s matches Some(t) ==> t.wf() && t@ == frames_to_ticks(
                sample@,
                SUPERCLOCK_TICKS_PER_SECOND,
                sample_rate_hz,
            ),
    {
        match standard_period(SUPERCLOCK_TICKS_PER_SECOND, sample_rate_hz) {
            Some(period) => Some(SuperclockTime::from_count(sample.0, sample_rate_hz, period)),
            None => None,
        }
    }

    /// This length in frames at a standard sample rate of `sample_rate_hz` frames per
    /// second, rounded to the nearest frame, half a frame upwards; `None` at any other
    /// rate.
    pub fn to_nearest_frame_round(&self, sample_rate_hz: u64) -> (f: Option<FrameTime>)
        ensures
            f is Some <==> is_standard_rate(sample_rate_hz),
            f matches Some(t) ==> t@ == ticks_to_frames_round(
                self@,
                SUPERCLOCK_TICKS_PER_SECOND,
                sample_rate_hz,
            ),
    {
        match standard_period(SUPERCLOCK_TICKS_PER_SECOND, sample_rate_hz) {
            Some(period) => Some(FrameTime(div_round(self.total_ticks(), period))),
            None => None,
        }
    }

    /// This length in samples at a standard sample rate of `sample_rate_hz` samples per
    /// second, rounded to the nearest sample, half a sample upwards; `None` at any
    /// other rate.
    pub fn to_nearest_sample_round(&self, sample_rate_hz: u64) -> (f: Option<SampleTime>)
        ensures
            f is Some <==> is_standard_rate(sample_rate_hz),
            f matches Some(t) ==> t@ == ticks_to_frames_round(
                self@,
                SUPERCLOCK_TICKS_PER_SECOND,
                sample_rate_hz,
            ),
    {
        match standard_period(SUPERCLOCK_TICKS_PER_SECOND, sample_rate_hz) {
            Some(period) => Some(SampleTime(div_round(self.total_ticks(), period))),
            None => None,
        }
    }

    /// `self - rhs`, or `None` where `rhs` is longer than `self`.
    pub fn checked_sub(self, rhs: SuperclockTime) -> (d: Option<SuperclockTime>)
        ensures
            self@ < rhs@ <==> d is None,
            d matches Some(t) ==> t.wf() && t@ == self@ - rhs@,
    {
        proof {
            use_type_invariant(self);
            use_type_invariant(rhs);
        }
        if self.seconds < rhs.seconds {
            None
        } else if self.ticks >= rhs.ticks {
            Some(SuperclockTime { seconds: self.seconds - rhs.seconds, ticks: self.ticks - rhs.ticks })
        } else if self.seconds == rhs.seconds {
            None
        } else {
            Some(
                SuperclockTime {
                    seconds: self.seconds - rhs.seconds - 1,
                    ticks: self.ticks + (282_240_000 - rhs.ticks),
                },
            )
        }
    }
}

/// The length of `n` ticks is well-formed and has the view `n`, for every `n` below the
/// limit.
pub proof fn lemma_superclock_from_view(n: nat)
    requires
        n < superclock_limit(),
    ensures
        SuperclockTime::from_view(n).wf(),
        SuperclockTime::from_view(n)@ == n,
{
}

/// A well-formed length is fixed by its view, and its view is below the limit.
pub proof fn lemma_superclock_view_determines(a: SuperclockTime, b: SuperclockTime)
    requires
        a.wf(),
        b.wf(),
    ensures
        a@ < superclock_limit(),
        a@ == b@ <==> a == b,
{
}

} // verus!
