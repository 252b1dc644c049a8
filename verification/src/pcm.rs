use vstd::prelude::*;

verus! {

/// The part of an output buffer that a stretch of recorded frames fills.
///
/// The buffer's places from `buf_start` on, `len` of them, take the recorded frames
/// from `pcm_start` on; every other place of the buffer is silence.
#[derive(Debug, Clone, Copy, PartialEq, Eq, Structural)]
pub struct FillWindow {
    pub buf_start: usize,
    pub pcm_start: usize,
    pub len: usize,
}

/// The first recorded frame that a buffer starting at frame `frame` can show.
pub open spec fn window_first(frame: int) -> int {
    if frame < 0 {
        0
    } else {
        frame
    }
}

/// One past the last recorded frame that a buffer of `buf_len` frames starting at frame
/// `frame` can show, of `len_frames` recorded frames.
pub open spec fn window_end(frame: int, buf_len: int, len_frames: int) -> int {
    if frame + buf_len < len_frames {
        frame + buf_len
    } else {
        len_frames
    }
}

/// The window in which a buffer of `buf_len` frames, starting at frame `frame` of the
/// timeline, overlaps a recording of `len_frames` frames that starts at frame 0; `None`
/// where the two do not overlap.
pub open spec fn fill_window_of(frame: int, buf_len: int, len_frames: int) -> Option<FillWindow> {
    let first = window_first(frame);
    let end = window_end(frame, buf_len, len_frames);
    if first < end {
        Some(
            FillWindow {
                buf_start: (first - frame) as usize,
                pcm_start: first as usize,
                len: (end - first) as usize,
            },
        )
    } else {
        None
    }
}

/// Where a buffer of `buf_len` frames that starts at frame `frame` of the timeline
/// takes its samples from a recording of `len_frames` frames: the window in which the
/// two overlap, which lies within both, or `None` where the whole buffer is silence.
pub fn fill_window(frame: isize, buf_len: usize, len_frames: usize) -> (w: Option<FillWindow>)
    ensures
        w == fill_window_of(frame as int, buf_len as int, len_frames as int),
        w matches Some(win) ==> {
            &&& win.len > 0
            &&& win.buf_start + win.len <= buf_len
            &&& win.pcm_start + win.len <= len_frames
            &&& win.pcm_start - win.buf_start == frame
        },
{
    if frame < 0 {
        // The distance of `frame` from 0, which may be one more than `isize::MAX`.
        let skip: usize = (-(frame + 1)) as usize + 1;
        if skip >= buf_len || len_frames == 0 {
            None
        } else {
            let rest: usize = buf_len - skip;
            let len: usize = if rest < len_frames {
                rest
            } else {
                len_frames
            };
            Some(FillWindow { buf_start: skip, pcm_start: 0, len })
        }
    } else {
        let start: usize = frame as usize;
        if start >= len_frames || buf_len == 0 {
            None
        } else {
            let rest: usize = len_frames - start;
            let len: usize = if buf_len < rest {
                buf_len
            } else {
                rest
            };
            Some(FillWindow { buf_start: 0, pcm_start: start, len })
        }
    }
}

/// What a buffer shows at its place `i` when it starts at frame `frame` of the timeline:
/// the recorded frame there, or `silence` outside the recording.
pub open spec fn shown_at<T>(pcm: Seq<T>, frame: int, i: int, silence: T) -> T {
    if 0 <= frame + i < pcm.len() {
        pcm[frame + i]
    } else {
        silence
    }
}

/// Fills `buf` with the frames of `pcm` from frame `frame` of the timeline on, and with
/// `silence` wherever the buffer reaches outside the recording.
pub fn fill_from<T: Copy>(pcm: &[T], frame: isize, buf: &mut [T], silence: T)
    ensures
        final(buf)@.len() == old(buf)@.len(),
        forall|i: int|
            0 <= i < final(buf)@.len() ==> #[trigger] final(buf)@[i] == shown_at(
                pcm@,
                frame as int,
                i,
                silence,
            ),
{
    let buf_len: usize = buf.len();
    let window = fill_window(frame, buf_len, pcm.len());
    let (buf_start, pcm_start, end): (usize, usize, usize) = match window {
        Some(win) => (win.buf_start, win.pcm_start, win.buf_start + win.len),
        None => (0, 0, 0),
    };
    let mut i: usize = 0;
    while i < buf_len
        invariant
            i <= buf_len,
            buf@.len() == buf_len,
            window == fill_window_of(frame as int, buf_len as int, pcm@.len() as int),
            window matches Some(win) ==> buf_start == win.buf_start && pcm_start == win.pcm_start
                && end == win.buf_start + win.len && end <= buf_len && win.pcm_start + win.len
                <= pcm@.len(),
            window is None ==> buf_start == 0 && end == 0,
            buf_start <= end,
            pcm_start + (end - buf_start) <= pcm@.len() <= usize::MAX,
            forall|j: int|
                0 <= j < i ==> #[trigger] buf@[j] == shown_at(pcm@, frame as int, j, silence),
        decreases buf_len - i,
    {
        if buf_start <= i && i < end {
            buf[i] = pcm[pcm_start + (i - buf_start)];
        } else {
            buf[i] = silence;
        }
        i = i + 1;
    }
}

/// Fills `buf` with the frames of `pcm` from frame `frame` of the timeline on, each
/// turned into the buffer's sample type by `convert`, and with `silence` wherever the
/// buffer reaches outside the recording.
pub fn fill_converted<S: Copy, T: Copy, F: Fn(S) -> T>(
    pcm: &[S],
    frame: isize,
    buf: &mut [T],
    silence: T,
    convert: F,
)
    requires
        forall|s: S| call_requires(convert, (s,)),
    ensures
        final(buf)@.len() == old(buf)@.len(),
        forall|i: int|
            0 <= i < final(buf)@.len() ==> if 0 <= frame + i < pcm@.len() {
                call_ensures(convert, (pcm@[frame + i],), #[trigger] final(buf)@[i])
            } else {
                final(buf)@[i] == silence
            },
{
    let buf_len: usize = buf.len();
    let window = fill_window(frame, buf_len, pcm.len());
    let (buf_start, pcm_start, end): (usize, usize, usize) = match window {
        Some(win) => (win.buf_start, win.pcm_start, win.buf_start + win.len),
        None => (0, 0, 0),
    };
    let mut i: usize = 0;
    while i < buf_len
        invariant
            i <= buf_len,
            buf@.len() == buf_len,
            forall|s: S| call_requires(convert, (s,)),
            window == fill_window_of(frame as int, buf_len as int, pcm@.len() as int),
            window matches Some(win) ==> buf_start == win.buf_start && pcm_start == win.pcm_start
                && end == win.buf_start + win.len && end <= buf_len && win.pcm_start + win.len
                <= pcm@.len(),
            window is None ==> buf_start == 0 && end == 0,
            buf_start <= end,
            pcm_start + (end - buf_start) <= pcm@.len() <= usize::MAX,
            forall|j: int|
                0 <= j < i ==> if 0 <= frame + j < pcm@.len() {
                    call_ensures(convert, (pcm@[frame + j],), #[trigger] buf@[j])
                } else {
                    buf@[j] == silence
                },
        decreases buf_len - i,
    {
        if buf_start <= i && i < end {
            buf[i] = convert(pcm[pcm_start + (i - buf_start)]);
        } else {
            buf[i] = silence;
        }
        i = i + 1;
    }
}

} // verus!
