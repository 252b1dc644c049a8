use crate::super_time::{SuperFrames, SUPER_FRAMES_PER_SECOND};
use crate::super_time::{frames_to_ticks, is_standard_rate};
use crate::superclock_time::SUPERCLOCK_TICKS_PER_SECOND;
use crate::superclock_time::{superclock_limit, SuperclockTime};
use std::cmp::Ordering;
use vstd::prelude::*;
use vstd::std_specs::cmp::PartialOrdSpecImpl;

verus! {

/// A length of time in frames: samples of a single channel.
///
/// Its view is the count as a natural number.
#[derive(Debug, Clone, Copy, PartialEq, Eq, Structural, Hash)]
pub struct Frames(pub u64);

impl View for Frames {
    type V = nat;

    open spec fn view(&self) -> nat {
        self.0 as nat
    }
}

impl PartialOrd for Frames {
    /// How this count stands to `other`: less, the same or more.
    fn partial_cmp(&self, other: &Frames) -> (r: Option<Ordering>) {
        if self.0 < other.0 {
            Some(Ordering::Less)
        } else if self.0 > other.0 {
            Some(Ordering::Greater)
        } else {
            Some(Ordering::Equal)
        }
    }
}

impl PartialOrdSpecImpl for Frames {
    open spec fn obeys_partial_cmp_spec() -> bool {
        true
    }

    open spec fn partial_cmp_spec(&self, other: &Frames) -> Option<Ordering> {
        if self@ < other@ {
            Some(Ordering::Less)
        } else if self@ > other@ {
            Some(Ordering::Greater)
        } else {
            Some(Ordering::Equal)
        }
    }
}

impl Default for Frames {
    /// A count of zero frames.
    fn default() -> (t: Frames)
        ensures
            t@ == 0,
    {
        Frames(0)
    }
}

impl From<u8> for Frames {
    /// A count of `s` frames.
    fn from(s: u8) -> (t: Frames) {
        Frames(s as u64)
    }
}

impl vstd::std_specs::convert::FromSpecImpl<u8> for Frames {
    open spec fn obeys_from_spec() -> bool {
        true
    }

    open spec fn from_spec(s: u8) -> Frames {
        Frames(s as u64)
    }
}

impl From<u16> for Frames {
    /// A count of `s` frames.
    fn from(s: u16) -> (t: Frames) {
        Frames(s as u64)
    }
}

impl vstd::std_specs::convert::FromSpecImpl<u16> for Frames {
    open spec fn obeys_from_spec() -> bool {
        true
    }

    open spec fn from_spec(s: u16) -> Frames {
        Frames(s as u64)
    }
}

impl From<u32> for Frames {
    /// A count of `s` frames.
    fn from(s: u32) -> (t: Frames) {
        Frames(s as u64)
    }
}

impl vstd::std_specs::convert::FromSpecImpl<u32> for Frames {
    open spec fn obeys_from_spec() -> bool {
        true
    }

    open spec fn from_spec(s: u32) -> Frames {
        Frames(s as u64)
    }
}

impl From<u64> for Frames {
    /// A count of `s` frames.
    fn from(s: u64) -> (t: Frames) {
        Frames(s as u64)
    }
}

impl vstd::std_specs::convert::FromSpecImpl<u64> for Frames {
    open spec fn obeys_from_spec() -> bool {
        true
    }

    open spec fn from_spec(s: u64) -> Frames {
        Frames(s as u64)
    }
}

impl From<usize> for Frames {
    /// A count of `s` frames.
    fn from(s: usize) -> (t: Frames) {
        Frames(s as u64)
    }
}

impl vstd::std_specs::convert::FromSpecImpl<usize> for Frames {
    open spec fn obeys_from_spec() -> bool {
        true
    }

    open spec fn from_spec(s: usize) -> Frames {
        Frames(s as u64)
    }
}

impl std::ops::Add<Frames> for Frames {
    type Output = Frames;

    /// The sum of the two counts.
    fn add(self, rhs: Frames) -> (t: Frames) {
        Frames(self.0 + rhs.0)
    }
}

impl vstd::std_specs::ops::AddSpecImpl<Frames> for Frames {
    open spec fn obeys_add_spec() -> bool {
        true
    }

    open spec fn add_req(self, rhs: Frames) -> bool {
        self@ + rhs@ <= u64::MAX
    }

    open spec fn add_spec(self, rhs: Frames) -> Frames {
        Frames((self.0 + rhs.0) as u64)
    }
}

impl std::ops::Sub<Frames> for Frames {
    type Output = Frames;

    /// The count that is left when `rhs` is taken from `self`.
    fn sub(self, rhs: Frames) -> (t: Frames) {
        Frames(self.0 - rhs.0)
    }
}

impl vstd::std_specs::ops::SubSpecImpl<Frames> for Frames {
    open spec fn obeys_sub_spec() -> bool {
        true
    }

    open spec fn sub_req(self, rhs: Frames) -> bool {
        rhs@ <= self@
    }

    open spec fn sub_spec(self, rhs: Frames) -> Frames {
        Frames((self.0 - rhs.0) as u64)
    }
}

impl std::ops::Mul<u64> for Frames {
    type Output = Frames;

    /// The count taken `rhs` times.
    fn mul(self, rhs: u64) -> (t: Frames) {
        Frames(self.0 * rhs)
    }
}

impl vstd::std_specs::ops::MulSpecImpl<u64> for Frames {
    open spec fn obeys_mul_spec() -> bool {
        true
    }

    open spec fn mul_req(self, rhs: u64) -> bool {
        self@ * rhs <= u64::MAX
    }

    open spec fn mul_spec(self, rhs: u64) -> Frames {
        Frames((self.0 * rhs) as u64)
    }
}

impl std::ops::AddAssign<Frames> for Frames {
    /// Adds `other` to this count.
    fn add_assign(&mut self, other: Frames)
        requires
            old(self)@ + other@ <= u64::MAX,
        ensures
            final(self)@ == old(self)@ + other@,
    {
        self.0 = self.0 + other.0;
    }
}

impl std::ops::SubAssign<Frames> for Frames {
    /// Takes `other` from this count.
    fn sub_assign(&mut self, other: Frames)
        requires
            other@ <= old(self)@,
        ensures
            final(self)@ == old(self)@ - other@,
    {
        self.0 = self.0 - other.0;
    }
}

impl std::ops::MulAssign<u64> for Frames {
    /// Takes this count `other` times.
    fn mul_assign(&mut self, other: u64)
        requires
            old(self)@ * other <= u64::MAX,
        ensures
            final(self)@ == old(self)@ * other,
    {
        self.0 = self.0 * other;
    }
}

impl Frames {
    /// A count of `frame` frames.
    pub fn new(frame: u64) -> (t: Frames)
        ensures
            t@ == frame,
    {
        Frames(frame)
    }

    /// This length in super-frames at a standard sample rate of `sample_rate_hz`
    /// frames per second, which loses nothing; `None` at any other rate.
    pub fn to_super_frame(&self, sample_rate_hz: u64) -> (s: Option<SuperFrames>)
        requires
            is_standard_rate(sample_rate_hz) ==> frames_to_ticks(
                self@,
                SUPER_FRAMES_PER_SECOND,
                sample_rate_hz,
            ) <= u64::MAX,
        ensures
            s is Some <==> is_standard_rate(sample_rate_hz),
            s matches Some(t) ==> t@ == frames_to_ticks(
                self@,
                SUPER_FRAMES_PER_SECOND,
                sample_rate_hz,
            ),
    {
        SuperFrames::from_frame(*self, sample_rate_hz)
    }
}

/// A length of time in samples of a single channel.
///
/// Its view is the count as a natural number.
#[derive(Debug, Clone, Copy, PartialEq, Eq, Structural, Hash)]
pub struct SampleTime(pub u64);

impl View for SampleTime {
    type V = nat;

    open spec fn view(&self) -> nat {
        self.0 as nat
    }
}

impl PartialOrd for SampleTime {
    /// How this count stands to `other`: less, the same or more.
    fn partial_cmp(&self, other: &SampleTime) -> (r: Option<Ordering>) {
        if self.0 < other.0 {
            Some(Ordering::Less)
        } else if self.0 > other.0 {
            Some(Ordering::Greater)
        } else {
            Some(Ordering::Equal)
        }
    }
}

impl PartialOrdSpecImpl for SampleTime {
    open spec fn obeys_partial_cmp_spec() -> bool {
        true
    }

    open spec fn partial_cmp_spec(&self, other: &SampleTime) -> Option<Ordering> {
        if self@ < other@ {
            Some(Ordering::Less)
        } else if self@ > other@ {
            Some(Ordering::Greater)
        } else {
            Some(Ordering::Equal)
        }
    }
}

impl Default for SampleTime {
    /// A count of zero samples.
    fn default() -> (t: SampleTime)
        ensures
            t@ == 0,
    {
        SampleTime(0)
    }
}

impl From<u8> for SampleTime {
    /// A count of `s` samples.
    fn from(s: u8) -> (t: SampleTime) {
        SampleTime(s as u64)
    }
}

impl vstd::std_specs::convert::FromSpecImpl<u8> for SampleTime {
    open spec fn obeys_from_spec() -> bool {
        true
    }

    open spec fn from_spec(s: u8) -> SampleTime {
        SampleTime(s as u64)
    }
}

impl From<u16> for SampleTime {
    /// A count of `s` samples.
    fn from(s: u16) -> (t: SampleTime) {
        SampleTime(s as u64)
    }
}

impl vstd::std_specs::convert::FromSpecImpl<u16> for SampleTime {
    open spec fn obeys_from_spec() -> bool {
        true
    }

    open spec fn from_spec(s: u16) -> SampleTime {
        SampleTime(s as u64)
    }
}

impl From<u32> for SampleTime {
    /// A count of `s` samples.
    fn from(s: u32) -> (t: SampleTime) {
        SampleTime(s as u64)
    }
}

impl vstd::std_specs::convert::FromSpecImpl<u32> for SampleTime {
    open spec fn obeys_from_spec() -> bool {
        true
    }

    open spec fn from_spec(s: u32) -> SampleTime {
        SampleTime(s as u64)
    }
}

impl From<u64> for SampleTime {
    /// A count of `s` samples.
    fn from(s: u64) -> (t: SampleTime) {
        SampleTime(s as u64)
    }
}

impl vstd::std_specs::convert::FromSpecImpl<u64> for SampleTime {
    open spec fn obeys_from_spec() -> bool {
        true
    }

    open spec fn from_spec(s: u64) -> SampleTime {
        SampleTime(s as u64)
    }
}

impl From<usize> for SampleTime {
    /// A count of `s` samples.
    fn from(s: usize) -> (t: SampleTime) {
        SampleTime(s as u64)
    }
}

impl vstd::std_specs::convert::FromSpecImpl<usize> for SampleTime {
    open spec fn obeys_from_spec() -> bool {
        true
    }

    open spec fn from_spec(s: usize) -> SampleTime {
        SampleTime(s as u64)
    }
}

impl std::ops::Add<SampleTime> for SampleTime {
    type Output = SampleTime;

    /// The sum of the two counts.
    fn add(self, rhs: SampleTime) -> (t: SampleTime) {
        SampleTime(self.0 + rhs.0)
    }
}

impl vstd::std_specs::ops::AddSpecImpl<SampleTime> for SampleTime {
    open spec fn obeys_add_spec() -> bool {
        true
    }

    open spec fn add_req(self, rhs: SampleTime) -> bool {
        self@ + rhs@ <= u64::MAX
    }

    open spec fn add_spec(self, rhs: SampleTime) -> SampleTime {
        SampleTime((self.0 + rhs.0) as u64)
    }
}

impl std::ops::Sub<SampleTime> for SampleTime {
    type Output = SampleTime;

    /// The count that is left when `rhs` is taken from `self`.
    fn sub(self, rhs: SampleTime) -> (t: SampleTime) {
        SampleTime(self.0 - rhs.0)
    }
}

impl vstd::std_specs::ops::SubSpecImpl<SampleTime> for SampleTime {
    open spec fn obeys_sub_spec() -> bool {
        true
    }

    open spec fn sub_req(self, rhs: SampleTime) -> bool {
        rhs@ <= self@
    }

    open spec fn sub_spec(self, rhs: SampleTime) -> SampleTime {
        SampleTime((self.0 - rhs.0) as u64)
    }
}

impl std::ops::Mul<u64> for SampleTime {
    type Output = SampleTime;

    /// The count taken `rhs` times.
    fn mul(self, rhs: u64) -> (t: SampleTime) {
        SampleTime(self.0 * rhs)
    }
}

impl vstd::std_specs::ops::MulSpecImpl<u64> for SampleTime {
    open spec fn obeys_mul_spec() -> bool {
        true
    }

    open spec fn mul_req(self, rhs: u64) -> bool {
        self@ * rhs <= u64::MAX
    }

    open spec fn mul_spec(self, rhs: u64) -> SampleTime {
        SampleTime((self.0 * rhs) as u64)
    }
}

impl std::ops::AddAssign<SampleTime> for SampleTime {
    /// Adds `other` to this count.
    fn add_assign(&mut self, other: SampleTime)
        requires
            old(self)@ + other@ <= u64::MAX,
        ensures
            final(self)@ == old(self)@ + other@,
    {
        self.0 = self.0 + other.0;
    }
}

impl std::ops::SubAssign<SampleTime> for SampleTime {
    /// Takes `other` from this count.
    fn sub_assign(&mut self, other: SampleTime)
        requires
            other@ <= old(self)@,
        ensures
            final(self)@ == old(self)@ - other@,
    {
        self.0 = self.0 - other.0;
    }
}

impl std::ops::MulAssign<u64> for SampleTime {
    /// Takes this count `other` times.
    fn mul_assign(&mut self, other: u64)
        requires
            old(self)@ * other <= u64::MAX,
        ensures
            final(self)@ == old(self)@ * other,
    {
        self.0 = self.0 * other;
    }
}

impl SampleTime {
    /// A count of `sample` samples.
    pub fn new(sample: u64) -> (t: SampleTime)
        ensures
            t@ == sample,
    {
        SampleTime(sample)
    }

    /// This length on the superclock at a standard sample rate of `sample_rate_hz`
    /// samples per second, which loses nothing; `None` at any other rate.
    pub fn to_super_sample(&self, sample_rate_hz: u64) -> (s: Option<SuperclockTime>)
        requires
            is_standard_rate(sample_rate_hz) ==> frames_to_ticks(
                self@,
                SUPERCLOCK_TICKS_PER_SECOND,
                sample_rate_hz,
            ) < superclock_limit(),
        ensures
            s is Some <==> is_standard_rate(sample_rate_hz),
            s matches Some(t) ==> t.wf() && t@ == frames_to_ticks(
                self@,
                SUPERCLOCK_TICKS_PER_SECOND,
                sample_rate_hz,
            ),
    {
        SuperclockTime::from_sample(*self, sample_rate_hz)
    }
}

/// A length of time in frames: samples in a single audio channel.
///
/// Its view is the count as a natural number.
#[derive(Debug, Clone, Copy, PartialEq, Eq, Structural, Hash)]
pub struct FrameTime(pub u64);

impl View for FrameTime {
    type V = nat;

    open spec fn view(&self) -> nat {
        self.0 as nat
    }
}

impl PartialOrd for FrameTime {
    /// How this count stands to `other`: less, the same or more.
    fn partial_cmp(&self, other: &FrameTime) -> (r: Option<Ordering>) {
        if self.0 < other.0 {
            Some(Ordering::Less)
        } else if self.0 > other.0 {
            Some(Ordering::Greater)
        } else {
            Some(Ordering::Equal)
        }
    }
}

impl PartialOrdSpecImpl for FrameTime {
    open spec fn obeys_partial_cmp_spec() -> bool {
        true
    }

    open spec fn partial_cmp_spec(&self, other: &FrameTime) -> Option<Ordering> {
        if self@ < other@ {
            Some(Ordering::Less)
        } else if self@ > other@ {
            Some(Ordering::Greater)
        } else {
            Some(Ordering::Equal)
        }
    }
}

impl Default for FrameTime {
    /// A count of zero frames.
    fn default() -> (t: FrameTime)
        ensures
            t@ == 0,
    {
        FrameTime(0)
    }
}

impl From<u8> for FrameTime {
    /// A count of `s` frames.
    fn from(s: u8) -> (t: FrameTime) {
        FrameTime(s as u64)
    }
}

impl vstd::std_specs::convert::FromSpecImpl<u8> for FrameTime {
    open spec fn obeys_from_spec() -> bool {
        true
    }

    open spec fn from_spec(s: u8) -> FrameTime {
        FrameTime(s as u64)
    }
}

impl From<u16> for FrameTime {
    /// A count of `s` frames.
    fn from(s: u16) -> (t: FrameTime) {
        FrameTime(s as u64)
    }
}

impl vstd::std_specs::convert::FromSpecImpl<u16> for FrameTime {
    open spec fn obeys_from_spec() -> bool {
        true
    }

    open spec fn from_spec(s: u16) -> FrameTime {
        FrameTime(s as u64)
    }
}

impl From<u32> for FrameTime {
    /// A count of `s` frames.
    fn from(s: u32) -> (t: FrameTime) {
        FrameTime(s as u64)
    }
}

impl vstd::std_specs::convert::FromSpecImpl<u32> for FrameTime {
    open spec fn obeys_from_spec() -> bool {
        true
    }

    open spec fn from_spec(s: u32) -> FrameTime {
        FrameTime(s as u64)
    }
}

impl From<u64> for FrameTime {
    /// A count of `s` frames.
    fn from(s: u64) -> (t: FrameTime) {
        FrameTime(s as u64)
    }
}

impl vstd::std_specs::convert::FromSpecImpl<u64> for FrameTime {
    open spec fn obeys_from_spec() -> bool {
        true
    }

    open spec fn from_spec(s: u64) -> FrameTime {
        FrameTime(s as u64)
    }
}

impl From<usize> for FrameTime {
    /// A count of `s` frames.
    fn from(s: usize) -> (t: FrameTime) {
        FrameTime(s as u64)
    }
}

impl vstd::std_specs::convert::FromSpecImpl<usize> for FrameTime {
    open spec fn obeys_from_spec() -> bool {
        true
    }

    open spec fn from_spec(s: usize) -> FrameTime {
        FrameTime(s as u64)
    }
}

impl std::ops::Add<FrameTime> for FrameTime {
    type Output = FrameTime;

    /// The sum of the two counts.
    fn add(self, rhs: FrameTime) -> (t: FrameTime) {
        FrameTime(self.0 + rhs.0)
    }
}

impl vstd::std_specs::ops::AddSpecImpl<FrameTime> for FrameTime {
    open spec fn obeys_add_spec() -> bool {
        true
    }

    open spec fn add_req(self, rhs: FrameTime) -> bool {
        self@ + rhs@ <= u64::MAX
    }

    open spec fn add_spec(self, rhs: FrameTime) -> FrameTime {
        FrameTime((self.0 + rhs.0) as u64)
    }
}

impl std::ops::Sub<FrameTime> for FrameTime {
    type Output = FrameTime;

    /// The count that is left when `rhs` is taken from `self`.
    fn sub(self, rhs: FrameTime) -> (t: FrameTime) {
        FrameTime(self.0 - rhs.0)
    }
}

impl vstd::std_specs::ops::SubSpecImpl<FrameTime> for FrameTime {
    open spec fn obeys_sub_spec() -> bool {
        true
    }

    open spec fn sub_req(self, rhs: FrameTime) -> bool {
        rhs@ <= self@
    }

    open spec fn sub_spec(self, rhs: FrameTime) -> FrameTime {
        FrameTime((self.0 - rhs.0) as u64)
    }
}

impl std::ops::Mul<u64> for FrameTime {
    type Output = FrameTime;

    /// The count taken `rhs` times.
    fn mul(self, rhs: u64) -> (t: FrameTime) {
        FrameTime(self.0 * rhs)
    }
}

impl vstd::std_specs::ops::MulSpecImpl<u64> for FrameTime {
    open spec fn obeys_mul_spec() -> bool {
        true
    }

    open spec fn mul_req(self, rhs: u64) -> bool {
        self@ * rhs <= u64::MAX
    }

    open spec fn mul_spec(self, rhs: u64) -> FrameTime {
        FrameTime((self.0 * rhs) as u64)
    }
}

impl std::ops::AddAssign<FrameTime> for FrameTime {
    /// Adds `other` to this count.
    fn add_assign(&mut self, other: FrameTime)
        requires
            old(self)@ + other@ <= u64::MAX,
        ensures
            final(self)@ == old(self)@ + other@,
    {
        self.0 = self.0 + other.0;
    }
}

impl std::ops::SubAssign<FrameTime> for FrameTime {
    /// Takes `other` from this count.
    fn sub_assign(&mut self, other: FrameTime)
        requires
            other@ <= old(self)@,
        ensures
            final(self)@ == old(self)@ - other@,
    {
        self.0 = self.0 - other.0;
    }
}

impl std::ops::MulAssign<u64> for FrameTime {
    /// Takes this count `other` times.
    fn mul_assign(&mut self, other: u64)
        requires
            old(self)@ * other <= u64::MAX,
        ensures
            final(self)@ == old(self)@ * other,
    {
        self.0 = self.0 * other;
    }
}

impl FrameTime {
    /// A count of `frame` frames.
    pub fn new(frame: u64) -> (t: FrameTime)
        ensures
            t@ == frame,
    {
        FrameTime(frame)
    }

    /// This length on the superclock at a standard sample rate of `sample_rate_hz`
    /// frames per second, which loses nothing; `None` at any other rate.
    pub fn to_super_frame(&self, sample_rate_hz: u64) -> (s: Option<SuperclockTime>)
        requires
            is_standard_rate(sample_rate_hz) ==> frames_to_ticks(
                self@,
                SUPERCLOCK_TICKS_PER_SECOND,
                sample_rate_hz,
            ) < superclock_limit(),
        ensures
            s is Some <==> is_standard_rate(sample_rate_hz),
            s matches Some(t) ==> t.wf() && t@ == frames_to_ticks(
                self@,
                SUPERCLOCK_TICKS_PER_SECOND,
                sample_rate_hz,
            ),
    {
        SuperclockTime::from_frame(*self, sample_rate_hz)
    }
}

} // verus!
