use crate::sample_time::{Frames, SampleTime};
use std::cmp::Ordering;
use vstd::arithmetic::div_mod::{lemma_fundamental_div_mod, lemma_fundamental_div_mod_converse};
use vstd::prelude::*;
use vstd::std_specs::cmp::PartialOrdSpecImpl;

verus! {

/// The number of super-frames in one second.
///
/// Every standard sample rate divides it, so a whole number of super-frames fits into
/// one frame at each of them.
pub const SUPER_FRAMES_PER_SECOND: u64 = 1_241_856_000;

/// The number of super-sample ticks in one second.
///
/// Every standard sample rate divides it, so a whole number of ticks fits into one
/// sample at each of them.
pub const SUPER_SAMPLE_TICKS_PER_SECOND: u32 = 282_240_000;

/// The sample rates, in frames per second, at which a frame is a whole number of ticks.
pub open spec fn is_standard_rate(hz: u64) -> bool {
    hz == 22050 || hz == 24000 || hz == 44100 || hz == 48000 || hz == 88200 || hz == 96000
        || hz == 176400 || hz == 192000
}

/// The two tick rates that the time types count in.
pub open spec fn is_tick_rate(ticks_per_second: u64) -> bool {
    ticks_per_second == SUPER_FRAMES_PER_SECOND || ticks_per_second
        == SUPER_SAMPLE_TICKS_PER_SECOND
}

/// The ticks that `frames` frames last, at `ticks_per_second` ticks and `hz` frames per
/// second.
pub open spec fn frames_to_ticks(frames: nat, ticks_per_second: u64, hz: u64) -> nat {
    frames * ((ticks_per_second / hz) as nat)
}

/// The whole frames that fit into `ticks` ticks.
pub open spec fn ticks_to_frames_floor(ticks: nat, ticks_per_second: u64, hz: u64) -> nat {
    ticks / ((ticks_per_second / hz) as nat)
}

/// The frame count nearest to `ticks` ticks; half a frame counts as a whole one.
pub open spec fn ticks_to_frames_round(ticks: nat, ticks_per_second: u64, hz: u64) -> nat {
    let period = (ticks_per_second / hz) as nat;
    (ticks + period / 2) / period
}

/// The least number of frames that last at least `ticks` ticks.
pub open spec fn ticks_to_frames_ceil(ticks: nat, ticks_per_second: u64, hz: u64) -> nat {
    let period = (ticks_per_second / hz) as nat;
    ((ticks + period - 1) / (period as int)) as nat
}

/// Whether `hz` frames per second is one of the standard sample rates.
pub fn is_standard_sample_rate(hz: u64) -> (b: bool)
    ensures
        b == is_standard_rate(hz),
{
    hz == 22050 || hz == 24000 || hz == 44100 || hz == 48000 || hz == 88200 || hz == 96000
        || hz == 176400 || hz == 192000
}

/// The ticks in one frame at a standard sample rate; `None` at any other rate.
pub fn standard_period(ticks_per_second: u64, hz: u64) -> (p: Option<u64>)
    ensures
        p is Some <==> is_standard_rate(hz),
        p matches Some(v) ==> v == ticks_per_second / hz,
{
    if is_standard_sample_rate(hz) {
        Some(ticks_per_second / hz)
    } else {
        None
    }
}

/// `ticks / period`, rounded to the nearest whole number, a half upwards.
pub fn div_round(ticks: u64, period: u64) -> (q: u64)
    requires
        period > 0,
    ensures
        q == (ticks + period / 2) / (period as int),
{
    let whole: u64 = ticks / period;
    let rest: u64 = ticks % period;
    let half: u64 = period / 2;
    proof {
        lemma_fundamental_div_mod(ticks as int, period as int);
        if rest >= period - half {
            assert((whole + 1) * period + (rest + half - period) == ticks + half)
                by (nonlinear_arith)
                requires
                    ticks == whole * period + rest,
            ;
            lemma_fundamental_div_mod_converse(
                ticks + half,
                period as int,
                whole + 1,
                rest + half - period,
            );
            assert(whole + 1 <= u64::MAX) by (nonlinear_arith)
                requires
                    (whole + 1) * period <= ticks + half,
                    half < period,
                    ticks <= u64::MAX,
                    period >= 1,
                    whole >= 0,
            ;
        } else {
            lemma_fundamental_div_mod_converse(
                ticks + half,
                period as int,
                whole as int,
                rest + half,
            );
        }
    }
    if rest >= period - half {
        whole + 1
    } else {
        whole
    }
}

/// `ticks / period`, rounded up to a whole number.
pub fn div_ceil(ticks: u64, period: u64) -> (q: u64)
    requires
        period > 0,
    ensures
        q == (ticks + period - 1) / (period as int),
{
    let whole: u64 = ticks / period;
    let rest: u64 = ticks % period;
    proof {
        lemma_fundamental_div_mod(ticks as int, period as int);
        if rest > 0 {
            assert((whole + 1) * period + (rest - 1) == ticks + period - 1) by (nonlinear_arith)
                requires
                    ticks == whole * period + rest,
            ;
            lemma_fundamental_div_mod_converse(
                ticks + period - 1,
                period as int,
                whole + 1,
                rest - 1,
            );
            assert(whole + 1 <= u64::MAX) by (nonlinear_arith)
                requires
                    (whole + 1) * period <= ticks + period - 1,
                    ticks <= u64::MAX,
                    period >= 1,
                    whole >= 0,
            ;
        } else {
            lemma_fundamental_div_mod_converse(
                ticks + period - 1,
                period as int,
                whole as int,
                period - 1,
            );
        }
    }
    if rest > 0 {
        whole + 1
    } else {
        whole
    }
}

/// Every standard sample rate divides both tick rates, and a frame is at least one tick.
pub proof fn lemma_standard_rates_divide(ticks_per_second: u64, hz: u64)
    requires
        is_tick_rate(ticks_per_second),
        is_standard_rate(hz),
    ensures
        ticks_per_second % hz == 0,
        ticks_per_second / hz >= 1,
        (ticks_per_second / hz) * hz == ticks_per_second,
{
}

/// Frames turned into ticks at a standard sample rate and back, by any of the three
/// roundings, are the frames one began with.
pub proof fn lemma_frames_round_trip(frames: nat, ticks_per_second: u64, hz: u64)
    requires
        is_tick_rate(ticks_per_second),
        is_standard_rate(hz),
    ensures
        ticks_to_frames_round(frames_to_ticks(frames, ticks_per_second, hz), ticks_per_second, hz)
            == frames,
        ticks_to_frames_floor(frames_to_ticks(frames, ticks_per_second, hz), ticks_per_second, hz)
            == frames,
        ticks_to_frames_ceil(frames_to_ticks(frames, ticks_per_second, hz), ticks_per_second, hz)
            == frames,
{
    lemma_standard_rates_divide(ticks_per_second, hz);
    let period = (ticks_per_second / hz) as int;
    let ticks = frames * period;
    lemma_fundamental_div_mod_converse(ticks, period, frames as int, 0);
    lemma_fundamental_div_mod_converse(ticks + period / 2, period, frames as int, period / 2);
    lemma_fundamental_div_mod_converse(ticks + period - 1, period, frames as int, period - 1);
}

/// Ticks measure the same length of time as the frames they were made from: `frames`
/// frames at `hz` frames per second are `frames * ticks_per_second / hz` ticks, with
/// nothing cut off.
pub proof fn lemma_ticks_keep_the_length(frames: nat, ticks_per_second: u64, hz: u64)
    requires
        is_tick_rate(ticks_per_second),
        is_standard_rate(hz),
    ensures
        frames_to_ticks(frames, ticks_per_second, hz) * hz == frames * ticks_per_second,
{
    lemma_standard_rates_divide(ticks_per_second, hz);
    let period = (ticks_per_second / hz) as int;
    assert(frames * period * hz == frames * (period * hz)) by (nonlinear_arith);
}

/// A recording of whole seconds keeps its length when the sample rate changes: its
/// frames at one standard rate, turned into ticks and into frames at another standard
/// rate, are the frames of as many seconds at that rate.
pub proof fn lemma_rate_change_keeps_whole_seconds(
    seconds: nat,
    ticks_per_second: u64,
    from_hz: u64,
    to_hz: u64,
)
    requires
        is_tick_rate(ticks_per_second),
        is_standard_rate(from_hz),
        is_standard_rate(to_hz),
    ensures
        ticks_to_frames_round(
            frames_to_ticks(seconds * (from_hz as nat), ticks_per_second, from_hz),
            ticks_per_second,
            to_hz,
        ) == seconds * (to_hz as nat),
{
    lemma_standard_rates_divide(ticks_per_second, from_hz);
    lemma_standard_rates_divide(ticks_per_second, to_hz);
    let from_period = (ticks_per_second / from_hz) as int;
    let to_period = (ticks_per_second / to_hz) as int;
    assert(seconds * from_hz * from_period == seconds * (from_period * from_hz))
        by (nonlinear_arith);
    assert(seconds * to_hz * to_period == seconds * (to_period * to_hz)) by (nonlinear_arith);
    lemma_frames_round_trip(seconds * (to_hz as nat), ticks_per_second, to_hz);
}

/// A length of time in super-frames, each one `SUPER_FRAMES_PER_SECOND`-th of a second.
///
/// Its view is the count as a natural number.
#[derive(Debug, Clone, Copy, PartialEq, Eq, Structural, Hash)]
pub struct SuperFrames(pub u64);

impl View for SuperFrames {
    type V = nat;

    open spec fn view(&self) -> nat {
        self.0 as nat
    }
}

impl PartialOrd for SuperFrames {
    /// How this count stands to `other`: less, the same or more.
    fn partial_cmp(&self, other: &SuperFrames) -> (r: Option<Ordering>) {
        if self.0 < other.0 {
            Some(Ordering::Less)
        } else if self.0 > other.0 {
            Some(Ordering::Greater)
        } else {
            Some(Ordering::Equal)
        }
    }
}

impl PartialOrdSpecImpl for SuperFrames {
    open spec fn obeys_partial_cmp_spec() -> bool {
        true
    }

    open spec fn partial_cmp_spec(&self, other: &SuperFrames) -> Option<Ordering> {
        if self@ < other@ {
            Some(Ordering::Less)
        } else if self@ > other@ {
            Some(Ordering::Greater)
        } else {
            Some(Ordering::Equal)
        }
    }
}

impl Default for SuperFrames {
    /// A count of zero super-frames.
    fn default() -> (t: SuperFrames)
        ensures
            t@ == 0,
    {
        SuperFrames(0)
    }
}

impl std::ops::Add<SuperFrames> for SuperFrames {
    type Output = SuperFrames;

    /// The sum of the two counts.
    fn add(self, rhs: SuperFrames) -> (t: SuperFrames) {
        SuperFrames(self.0 + rhs.0)
    }
}

impl vstd::std_specs::ops::AddSpecImpl<SuperFrames> for SuperFrames {
    open spec fn obeys_add_spec() -> bool {
        true
    }

    open spec fn add_req(self, rhs: SuperFrames) -> bool {
        self@ + rhs@ <= u64::MAX
    }

    open spec fn add_spec(self, rhs: SuperFrames) -> SuperFrames {
        SuperFrames((self.0 + rhs.0) as u64)
    }
}

impl std::ops::Sub<SuperFrames> for SuperFrames {
    type Output = SuperFrames;

    /// The count that is left when `rhs` is taken from `self`.
    fn sub(self, rhs: SuperFrames) -> (t: SuperFrames) {
        SuperFrames(self.0 - rhs.0)
    }
}

impl vstd::std_specs::ops::SubSpecImpl<SuperFrames> for SuperFrames {
    open spec fn obeys_sub_spec() -> bool {
        true
    }

    open spec fn sub_req(self, rhs: SuperFrames) -> bool {
        rhs@ <= self@
    }

    open spec fn sub_spec(self, rhs: SuperFrames) -> SuperFrames {
        SuperFrames((self.0 - rhs.0) as u64)
    }
}

impl std::ops::Mul<u64> for SuperFrames {
    type Output = SuperFrames;

    /// The count taken `rhs` times.
    fn mul(self, rhs: u64) -> (t: SuperFrames) {
        SuperFrames(self.0 * rhs)
    }
}

impl vstd::std_specs::ops::MulSpecImpl<u64> for SuperFrames {
    open spec fn obeys_mul_spec() -> bool {
        true
    }

    open spec fn mul_req(self, rhs: u64) -> bool {
        self@ * rhs <= u64::MAX
    }

    open spec fn mul_spec(self, rhs: u64) -> SuperFrames {
        SuperFrames((self.0 * rhs) as u64)
    }
}

impl std::ops::AddAssign<SuperFrames> for SuperFrames {
    /// Adds `other` to this count.
    fn add_assign(&mut self, other: SuperFrames)
        requires
            old(self)@ + other@ <= u64::MAX,
        ensures
            final(self)@ == old(self)@ + other@,
    {
        self.0 = self.0 + other.0;
    }
}

impl std::ops::SubAssign<SuperFrames> for SuperFrames {
    /// Takes `other` from this count.
    fn sub_assign(&mut self, other: SuperFrames)
        requires
            other@ <= old(self)@,
        ensures
            final(self)@ == old(self)@ - other@,
    {
        self.0 = self.0 - other.0;
    }
}

impl std::ops::MulAssign<u64> for SuperFrames {
    /// Takes this count `other` times.
    fn mul_assign(&mut self, other: u64)
        requires
            old(self)@ * other <= u64::MAX,
        ensures
            final(self)@ == old(self)@ * other,
    {
        self.0 = self.0 * other;
    }
}

impl SuperFrames {
    /// A count of `super_frame` super-frames.
    pub fn new(super_frame: u64) -> (t: SuperFrames)
        ensures
            t@ == super_frame,
    {
        SuperFrames(super_frame)
    }

    /// The super-frames that `frame` lasts at a standard sample rate of
    /// `sample_rate_hz` frames per second, which loses nothing; `None` at any
    /// other rate.
    pub fn from_frame(frame: Frames, sample_rate_hz: u64) -> (s: Option<SuperFrames>)
        requires
            is_standard_rate(sample_rate_hz) ==> frames_to_ticks(
                frame@,
                SUPER_FRAMES_PER_SECOND,
                sample_rate_hz,
            ) <= u64::MAX,
        ensures
            s is Some <==> is_standard_rate(sample_rate_hz),
            s matches Some(t) ==> t@ == frames_to_ticks(
                frame@,
                SUPER_FRAMES_PER_SECOND,
                sample_rate_hz,
            ),
    {
        match standard_period(SUPER_FRAMES_PER_SECOND, sample_rate_hz) {
            Some(period) => Some(SuperFrames(frame.0 * period)),
            None => None,
        }
    }

    /// This length in frames at a standard sample rate of `sample_rate_hz`
    /// frames per second, rounded to the nearest frame, half a frame upwards;
    /// `None` at any other rate.
    pub fn to_nearest_frame_round(&self, sample_rate_hz: u64) -> (f: Option<Frames>)
        ensures
            f is Some <==> is_standard_rate(sample_rate_hz),
            f matches Some(t) ==> t@ == ticks_to_frames_round(
                self@,
                SUPER_FRAMES_PER_SECOND,
                sample_rate_hz,
            ),
    {
        match standard_period(SUPER_FRAMES_PER_SECOND, sample_rate_hz) {
            Some(period) => Some(Frames(div_round(self.0, period))),
            None => None,
        }
    }

    /// This length in whole frames at a standard sample rate of `sample_rate_hz`
    /// frames per second, rounded down; `None` at any other rate.
    pub fn to_nearest_frame_floor(&self, sample_rate_hz: u64) -> (f: Option<Frames>)
        ensures
            f is Some <==> is_standard_rate(sample_rate_hz),
            f matches Some(t) ==> t@ == ticks_to_frames_floor(
                self@,
                SUPER_FRAMES_PER_SECOND,
                sample_rate_hz,
            ),
    {
        match standard_period(SUPER_FRAMES_PER_SECOND, sample_rate_hz) {
            Some(period) => Some(Frames(self.0 / period)),
            None => None,
        }
    }

    /// This length in whole frames at a standard sample rate of `sample_rate_hz`
    /// frames per second, rounded up; `None` at any other rate.
    pub fn to_nearest_frame_ceil(&self, sample_rate_hz: u64) -> (f: Option<Frames>)
        ensures
            f is Some <==> is_standard_rate(sample_rate_hz),
            f matches Some(t) ==> t@ == ticks_to_frames_ceil(
                self@,
                SUPER_FRAMES_PER_SECOND,
                sample_rate_hz,
            ),
    {
        match standard_period(SUPER_FRAMES_PER_SECOND, sample_rate_hz) {
            Some(period) => Some(Frames(div_ceil(self.0, period))),
            None => None,
        }
    }

    /// `self - rhs`, or `None` where `rhs` is longer than `self`.
    pub fn checked_sub(self, rhs: SuperFrames) -> (d: Option<SuperFrames>)
        ensures
            self@ < rhs@ <==> d is None,
            d matches Some(t) ==> t@ == self@ - rhs@,
    {
        if self.0 < rhs.0 {
            None
        } else {
            Some(SuperFrames(self.0 - rhs.0))
        }
    }
}

/// A length of time in super-samples, each one `SUPER_SAMPLE_TICKS_PER_SECOND`-th of a
/// second.
///
/// Its view is the count as a natural number.
#[derive(Debug, Clone, Copy, PartialEq, Eq, Structural, Hash)]
pub struct SuperSampleTime(pub u64);

impl View for SuperSampleTime {
    type V = nat;

    open spec fn view(&self) -> nat {
        self.0 as nat
    }
}

impl PartialOrd for SuperSampleTime {
    /// How this count stands to `other`: less, the same or more.
    fn partial_cmp(&self, other: &SuperSampleTime) -> (r: Option<Ordering>) {
        if self.0 < other.0 {
            Some(Ordering::Less)
        } else if self.0 > other.0 {
            Some(Ordering::Greater)
        } else {
            Some(Ordering::Equal)
        }
    }
}

impl PartialOrdSpecImpl for SuperSampleTime {
    open spec fn obeys_partial_cmp_spec() -> bool {
        true
    }

    open spec fn partial_cmp_spec(&self, other: &SuperSampleTime) -> Option<Ordering> {
        if self@ < other@ {
            Some(Ordering::Less)
        } else if self@ > other@ {
            Some(Ordering::Greater)
        } else {
            Some(Ordering::Equal)
        }
    }
}

impl Default for SuperSampleTime {
    /// A count of zero super-samples.
    fn default() -> (t: SuperSampleTime)
        ensures
            t@ == 0,
    {
        SuperSampleTime(0)
    }
}

impl std::ops::Add<SuperSampleTime> for SuperSampleTime {
    type Output = SuperSampleTime;

    /// The sum of the two counts.
    fn add(self, rhs: SuperSampleTime) -> (t: SuperSampleTime) {
        SuperSampleTime(self.0 + rhs.0)
    }
}

impl vstd::std_specs::ops::AddSpecImpl<SuperSampleTime> for SuperSampleTime {
    open spec fn obeys_add_spec() -> bool {
        true
    }

    open spec fn add_req(self, rhs: SuperSampleTime) -> bool {
        self@ + rhs@ <= u64::MAX
    }

    open spec fn add_spec(self, rhs: SuperSampleTime) -> SuperSampleTime {
        SuperSampleTime((self.0 + rhs.0) as u64)
    }
}

impl std::ops::Sub<SuperSampleTime> for SuperSampleTime {
    type Output = SuperSampleTime;

    /// The count that is left when `rhs` is taken from `self`.
    fn sub(self, rhs: SuperSampleTime) -> (t: SuperSampleTime) {
        SuperSampleTime(self.0 - rhs.0)
    }
}

impl vstd::std_specs::ops::SubSpecImpl<SuperSampleTime> for SuperSampleTime {
    open spec fn obeys_sub_spec() -> bool {
        true
    }

    open spec fn sub_req(self, rhs: SuperSampleTime) -> bool {
        rhs@ <= self@
    }

    open spec fn sub_spec(self, rhs: SuperSampleTime) -> SuperSampleTime {
        SuperSampleTime((self.0 - rhs.0) as u64)
    }
}

impl std::ops::Mul<u64> for SuperSampleTime {
    type Output = SuperSampleTime;

    /// The count taken `rhs` times.
    fn mul(self, rhs: u64) -> (t: SuperSampleTime) {
        SuperSampleTime(self.0 * rhs)
    }
}

impl vstd::std_specs::ops::MulSpecImpl<u64> for SuperSampleTime {
    open spec fn obeys_mul_spec() -> bool {
        true
    }

    open spec fn mul_req(self, rhs: u64) -> bool {
        self@ * rhs <= u64::MAX
    }

    open spec fn mul_spec(self, rhs: u64) -> SuperSampleTime {
        SuperSampleTime((self.0 * rhs) as u64)
    }
}

impl std::ops::AddAssign<SuperSampleTime> for SuperSampleTime {
    /// Adds `other` to this count.
    fn add_assign(&mut self, other: SuperSampleTime)
        requires
            old(self)@ + other@ <= u64::MAX,
        ensures
            final(self)@ == old(self)@ + other@,
    {
        self.0 = self.0 + other.0;
    }
}

impl std::ops::SubAssign<SuperSampleTime> for SuperSampleTime {
    /// Takes `other` from this count.
    fn sub_assign(&mut self, other: SuperSampleTime)
        requires
            other@ <= old(self)@,
        ensures
            final(self)@ == old(self)@ - other@,
    {
        self.0 = self.0 - other.0;
    }
}

impl std::ops::MulAssign<u64> for SuperSampleTime {
    /// Takes this count `other` times.
    fn mul_assign(&mut self, other: u64)
        requires
            old(self)@ * other <= u64::MAX,
        ensures
            final(self)@ == old(self)@ * other,
    {
        self.0 = self.0 * other;
    }
}

impl SuperSampleTime {
    /// A count of `super_sample` super-samples.
    pub fn new(super_sample: u64) -> (t: SuperSampleTime)
        ensures
            t@ == super_sample,
    {
        SuperSampleTime(super_sample)
    }

    /// The super-samples that `sample` lasts at a standard sample rate of
    /// `sample_rate_hz` samples per second, which loses nothing; `None` at any
    /// other rate.
    pub fn from_sample(sample: SampleTime, sample_rate_hz: u64) -> (s: Option<SuperSampleTime>)
        requires
            is_standard_rate(sample_rate_hz) ==> frames_to_ticks(
                sample@,
                SUPER_SAMPLE_TICKS_PER_SECOND as u64,
                sample_rate_hz,
            ) <= u64::MAX,
        ensures
            s is Some <==> is_standard_rate(sample_rate_hz),
            s matches Some(t) ==> t@ == frames_to_ticks(
                sample@,
                SUPER_SAMPLE_TICKS_PER_SECOND as u64,
                sample_rate_hz,
            ),
    {
        match standard_period(SUPER_SAMPLE_TICKS_PER_SECOND as u64, sample_rate_hz) {
            Some(period) => Some(SuperSampleTime(sample.0 * period)),
            None => None,
        }
    }

    /// This length in samples at a standard sample rate of `sample_rate_hz`
    /// samples per second, rounded to the nearest sample, half a sample upwards;
    /// `None` at any other rate.
    pub fn to_nearest_sample_round(&self, sample_rate_hz: u64) -> (f: Option<SampleTime>)
        ensures
            f is Some <==> is_standard_rate(sample_rate_hz),
            f matches Some(t) ==> t@ == ticks_to_frames_round(
                self@,
                SUPER_SAMPLE_TICKS_PER_SECOND as u64,
                sample_rate_hz,
            ),
    {
        match standard_period(SUPER_SAMPLE_TICKS_PER_SECOND as u64, sample_rate_hz) {
            Some(period) => Some(SampleTime(div_round(self.0, period))),
            None => None,
        }
    }

    /// This length in whole samples at a standard sample rate of `sample_rate_hz`
    /// samples per second, rounded down; `None` at any other rate.
    pub fn to_nearest_sample_floor(&self, sample_rate_hz: u64) -> (f: Option<SampleTime>)
        ensures
            f is Some <==> is_standard_rate(sample_rate_hz),
            f matches Some(t) ==> t@ == ticks_to_frames_floor(
                self@,
                SUPER_SAMPLE_TICKS_PER_SECOND as u64,
                sample_rate_hz,
            ),
    {
        match standard_period(SUPER_SAMPLE_TICKS_PER_SECOND as u64, sample_rate_hz) {
            Some(period) => Some(SampleTime(self.0 / period)),
            None => None,
        }
    }

    /// This length in whole samples at a standard sample rate of `sample_rate_hz`
    /// samples per second, rounded up; `None` at any other rate.
    pub fn to_nearest_sample_ceil(&self, sample_rate_hz: u64) -> (f: Option<SampleTime>)
        ensures
            f is Some <==> is_standard_rate(sample_rate_hz),
            f matches Some(t) ==> t@ == ticks_to_frames_ceil(
                self@,
                SUPER_SAMPLE_TICKS_PER_SECOND as u64,
                sample_rate_hz,
            ),
    {
        match standard_period(SUPER_SAMPLE_TICKS_PER_SECOND as u64, sample_rate_hz) {
            Some(period) => Some(SampleTime(div_ceil(self.0, period))),
            None => None,
        }
    }

    /// `self - rhs`, or `None` where `rhs` is longer than `self`.
    pub fn checked_sub(self, rhs: SuperSampleTime) -> (d: Option<SuperSampleTime>)
        ensures
            self@ < rhs@ <==> d is None,
            d matches Some(t) ==> t@ == self@ - rhs@,
    {
        if self.0 < rhs.0 {
            None
        } else {
            Some(SuperSampleTime(self.0 - rhs.0))
        }
    }
}

} // verus!
