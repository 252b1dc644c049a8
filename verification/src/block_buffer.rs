use crate::smooth::{clamp_frames, clamped_frames};
use std::ops::Range;
use vstd::prelude::*;

verus! {

/// A number of frames that lie in memory, as opposed to a length of time.
#[derive(Debug, Clone, Copy, PartialEq, Eq, Structural, Hash)]
pub struct RealFrames(pub usize);

/// Whether `value` is a value that `T::default()` may return.
pub open spec fn is_default_value<T: Default>(value: T) -> bool {
    call_ensures(T::default, (), value)
}

/// `after` is `before` with one default value written to every place from `start` up
/// to, not including, `end`, and nothing else changed.
pub open spec fn cleared_between<T: Default>(
    before: Seq<T>,
    after: Seq<T>,
    start: int,
    end: int,
) -> bool {
    &&& after.len() == before.len()
    &&& exists|zero: T|
        is_default_value(zero) && forall|i: int|
            0 <= i < after.len() ==> #[trigger] after[i] == if start <= i < end {
                zero
            } else {
                before[i]
            }
}

/// `after` is `before` with the first `frames` places taken over from `src`, and
/// nothing else changed.
pub open spec fn copied_frames<T>(before: Seq<T>, after: Seq<T>, src: Seq<T>, frames: int) -> bool {
    &&& after.len() == before.len()
    &&& forall|i: int|
        0 <= i < after.len() ==> #[trigger] after[i] == if i < frames {
            src[i]
        } else {
            before[i]
        }
}

/// Writes `zero` to every place of `buf` from `start` up to, not including, `end`.
fn fill_between<T: Copy, const MAX_BLOCKSIZE: usize>(
    buf: &mut [T; MAX_BLOCKSIZE],
    start: usize,
    end: usize,
    zero: T,
)
    requires
        start <= end <= MAX_BLOCKSIZE,
    ensures
        forall|i: int|
            0 <= i < MAX_BLOCKSIZE ==> #[trigger] final(buf)@[i] == if start <= i < end {
                zero
            } else {
                old(buf)@[i]
            },
{
    let mut i: usize = start;
    while i < end
        invariant
            start <= i <= end <= MAX_BLOCKSIZE,
            forall|j: int|
                0 <= j < MAX_BLOCKSIZE ==> #[trigger] buf@[j] == if start <= j < i {
                    zero
                } else {
                    old(buf)@[j]
                },
        decreases end - i,
    {
        buf[i] = zero;
        i = i + 1;
    }
}

/// Copies the first `frames` places of `src` to `buf`.
fn copy_between<T: Copy, const MAX_BLOCKSIZE: usize>(
    buf: &mut [T; MAX_BLOCKSIZE],
    src: &[T; MAX_BLOCKSIZE],
    frames: usize,
)
    requires
        frames <= MAX_BLOCKSIZE,
    ensures
        copied_frames(old(buf)@, final(buf)@, src@, frames as int),
{
    let mut i: usize = 0;
    while i < frames
        invariant
            i <= frames <= MAX_BLOCKSIZE,
            copied_frames(old(buf)@, buf@, src@, i as int),
        decreases frames - i,
    {
        buf[i] = src[i];
        i = i + 1;
    }
}

/// An audio buffer with a single channel and room for `MAX_BLOCKSIZE` frames.
#[derive(Debug)]
pub struct MonoBlockBuffer<T: Default + Copy + Clone, const MAX_BLOCKSIZE: usize> {
    pub buf: [T; MAX_BLOCKSIZE],
}

impl<T: Default + Copy + Clone, const MAX_BLOCKSIZE: usize> MonoBlockBuffer<T, MAX_BLOCKSIZE> {
    /// A buffer with every sample at one default value.
    pub fn new() -> (b: Self)
        ensures
            exists|zero: T|
                is_default_value(zero) && forall|i: int|
                    0 <= i < MAX_BLOCKSIZE ==> #[trigger] b.buf@[i] == zero,
    {
        let zero = T::default();
        assert(is_default_value(zero));
        MonoBlockBuffer { buf: [zero;MAX_BLOCKSIZE] }
    }

    /// Sets every sample to one default value.
    pub fn clear(&mut self)
        ensures
            cleared_between(old(self).buf@, final(self).buf@, 0, MAX_BLOCKSIZE as int),
    {
        let zero = T::default();
        assert(is_default_value(zero));
        fill_between(&mut self.buf, 0, MAX_BLOCKSIZE, zero);
    }

    /// Sets the first `frames` samples, or all where `frames` is more than there is
    /// room for, to one default value.
    pub fn clear_frames(&mut self, frames: RealFrames)
        ensures
            cleared_between(
                old(self).buf@,
                final(self).buf@,
                0,
                clamped_frames(frames.0, MAX_BLOCKSIZE) as int,
            ),
    {
        let frames = clamp_frames(frames.0, MAX_BLOCKSIZE);
        let zero = T::default();
        assert(is_default_value(zero));
        fill_between(&mut self.buf, 0, frames, zero);
    }

    /// Sets the samples in `range` to one default value.
    pub fn clear_range(&mut self, range: Range<usize>)
        requires
            range.start <= range.end <= MAX_BLOCKSIZE,
        ensures
            cleared_between(
                old(self).buf@,
                final(self).buf@,
                range.start as int,
                range.end as int,
            ),
    {
        let zero = T::default();
        assert(is_default_value(zero));
        fill_between(&mut self.buf, range.start, range.end, zero);
    }

    /// Copies every sample of `src` to this buffer.
    pub fn copy_from(&mut self, src: &MonoBlockBuffer<T, MAX_BLOCKSIZE>)
        ensures
            final(self).buf@ == src.buf@,
    {
        copy_between(&mut self.buf, &src.buf, MAX_BLOCKSIZE);
    }

    /// Copies the first `frames` samples of `src`, or all where `frames` is more than
    /// there is room for, to this buffer.
    pub fn copy_frames_from(&mut self, src: &MonoBlockBuffer<T, MAX_BLOCKSIZE>, frames: RealFrames)
        ensures
            copied_frames(
                old(self).buf@,
                final(self).buf@,
                src.buf@,
                clamped_frames(frames.0, MAX_BLOCKSIZE) as int,
            ),
    {
        let frames = clamp_frames(frames.0, MAX_BLOCKSIZE);
        copy_between(&mut self.buf, &src.buf, frames);
    }
}

/// An audio buffer with two channels and room for `MAX_BLOCKSIZE` frames in each.
#[derive(Debug)]
pub struct StereoBlockBuffer<T: Default + Copy + Clone, const MAX_BLOCKSIZE: usize> {
    pub left: [T; MAX_BLOCKSIZE],
    pub right: [T; MAX_BLOCKSIZE],
}

impl<T: Default + Copy + Clone, const MAX_BLOCKSIZE: usize> StereoBlockBuffer<T, MAX_BLOCKSIZE> {
    /// A buffer with every sample of a channel at one default value.
    pub fn new() -> (b: Self)
        ensures
            exists|zero: T|
                is_default_value(zero) && forall|i: int|
                    0 <= i < MAX_BLOCKSIZE ==> #[trigger] b.left@[i] == zero,
            exists|zero: T|
                is_default_value(zero) && forall|i: int|
                    0 <= i < MAX_BLOCKSIZE ==> #[trigger] b.right@[i] == zero,
    {
        let zero_left = T::default();
        let zero_right = T::default();
        assert(is_default_value(zero_left));
        assert(is_default_value(zero_right));
        StereoBlockBuffer { left: [zero_left;MAX_BLOCKSIZE], right: [zero_right;MAX_BLOCKSIZE] }
    }

    /// Sets every sample of each channel to one default value.
    pub fn clear(&mut self)
        ensures
            cleared_between(old(self).left@, final(self).left@, 0, MAX_BLOCKSIZE as int),
            cleared_between(old(self).right@, final(self).right@, 0, MAX_BLOCKSIZE as int),
    {
        let zero_left = T::default();
        assert(is_default_value(zero_left));
        fill_between(&mut self.left, 0, MAX_BLOCKSIZE, zero_left);
        let zero_right = T::default();
        assert(is_default_value(zero_right));
        fill_between(&mut self.right, 0, MAX_BLOCKSIZE, zero_right);
    }

    /// Sets the first `frames` samples of each channel, or all where `frames` is more
    /// than there is room for, to one default value.
    pub fn clear_frames(&mut self, frames: RealFrames)
        ensures
            cleared_between(
                old(self).left@,
                final(self).left@,
                0,
                clamped_frames(frames.0, MAX_BLOCKSIZE) as int,
            ),
            cleared_between(
                old(self).right@,
                final(self).right@,
                0,
                clamped_frames(frames.0, MAX_BLOCKSIZE) as int,
            ),
    {
        let frames = clamp_frames(frames.0, MAX_BLOCKSIZE);
        let zero_left = T::default();
        assert(is_default_value(zero_left));
        fill_between(&mut self.left, 0, frames, zero_left);
        let zero_right = T::default();
        assert(is_default_value(zero_right));
        fill_between(&mut self.right, 0, frames, zero_right);
    }

    /// Sets the samples of each channel in `range` to one default value.
    pub fn clear_range(&mut self, range: Range<usize>)
        requires
            range.start <= range.end <= MAX_BLOCKSIZE,
        ensures
            cleared_between(
                old(self).left@,
                final(self).left@,
                range.start as int,
                range.end as int,
            ),
            cleared_between(
                old(self).right@,
                final(self).right@,
                range.start as int,
                range.end as int,
            ),
    {
        let zero_left = T::default();
        assert(is_default_value(zero_left));
        fill_between(&mut self.left, range.start, range.end, zero_left);
        let zero_right = T::default();
        assert(is_default_value(zero_right));
        fill_between(&mut self.right, range.start, range.end, zero_right);
    }

    /// Copies every sample of `src` to this buffer, channel by channel.
    pub fn copy_from(&mut self, src: &StereoBlockBuffer<T, MAX_BLOCKSIZE>)
        ensures
            final(self).left@ == src.left@,
            final(self).right@ == src.right@,
    {
        copy_between(&mut self.left, &src.left, MAX_BLOCKSIZE);
        copy_between(&mut self.right, &src.right, MAX_BLOCKSIZE);
    }

    /// Copies the first `frames` samples of each channel of `src`, or all where
    /// `frames` is more than there is room for, to this buffer.
    pub fn copy_frames_from(
        &mut self,
        src: &StereoBlockBuffer<T, MAX_BLOCKSIZE>,
        frames: RealFrames,
    )
        ensures
            copied_frames(
                old(self).left@,
                final(self).left@,
                src.left@,
                clamped_frames(frames.0, MAX_BLOCKSIZE) as int,
            ),
            copied_frames(
                old(self).right@,
                final(self).right@,
                src.right@,
                clamped_frames(frames.0, MAX_BLOCKSIZE) as int,
            ),
    {
        let frames = clamp_frames(frames.0, MAX_BLOCKSIZE);
        copy_between(&mut self.left, &src.left, frames);
        copy_between(&mut self.right, &src.right, frames);
    }

    /// The left and the right channel, in that order, to write to.
    pub fn left_right_mut(&mut self) -> (channels: (&mut [T; MAX_BLOCKSIZE], &mut [T; MAX_BLOCKSIZE]))
        ensures
            *channels.0 == old(self).left,
            *channels.1 == old(self).right,
            final(self).left == *final(channels.0),
            final(self).right == *final(channels.1),
    {
        (&mut self.left, &mut self.right)
    }
}

} // verus!
