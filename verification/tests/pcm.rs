use daw_core::pcm::{fill_converted, fill_from, fill_window, FillWindow};

#[test]
fn window_inside_the_recording() {
    assert_eq!(fill_window(3, 4, 10), Some(FillWindow { buf_start: 0, pcm_start: 3, len: 4 }));
    assert_eq!(fill_window(0, 10, 10), Some(FillWindow { buf_start: 0, pcm_start: 0, len: 10 }));
    assert_eq!(fill_window(6, 4, 10), Some(FillWindow { buf_start: 0, pcm_start: 6, len: 4 }));
}

#[test]
fn window_over_the_end() {
    assert_eq!(fill_window(7, 4, 10), Some(FillWindow { buf_start: 0, pcm_start: 7, len: 3 }));
    assert_eq!(fill_window(9, 4, 10), Some(FillWindow { buf_start: 0, pcm_start: 9, len: 1 }));
}

#[test]
fn window_before_the_start() {
    assert_eq!(fill_window(-3, 4, 10), Some(FillWindow { buf_start: 3, pcm_start: 0, len: 1 }));
    assert_eq!(fill_window(-3, 8, 10), Some(FillWindow { buf_start: 3, pcm_start: 0, len: 5 }));
    assert_eq!(fill_window(-3, 13, 10), Some(FillWindow { buf_start: 3, pcm_start: 0, len: 10 }));
    assert_eq!(fill_window(-3, 20, 10), Some(FillWindow { buf_start: 3, pcm_start: 0, len: 10 }));
}

#[test]
fn no_window_without_overlap() {
    assert_eq!(fill_window(10, 4, 10), None);
    assert_eq!(fill_window(11, 4, 10), None);
    assert_eq!(fill_window(-4, 4, 10), None);
    assert_eq!(fill_window(-5, 4, 10), None);
    assert_eq!(fill_window(0, 0, 10), None);
    assert_eq!(fill_window(0, 4, 0), None);
    assert_eq!(fill_window(-1, 4, 0), None);
    assert_eq!(fill_window(isize::MIN, 4, 10), None);
    assert_eq!(fill_window(isize::MAX, 4, 10), None);
    assert_eq!(fill_window(isize::MIN, usize::MAX, usize::MAX), Some(FillWindow {
        buf_start: 1usize << (usize::BITS - 1),
        pcm_start: 0,
        len: usize::MAX >> 1,
    }));
}

#[test]
fn fill_from_copies_and_silences() {
    let pcm = [1i16, 2, 3, 4, 5];
    let mut buf = [9i16; 4];
    fill_from(&pcm, 1, &mut buf, 0);
    assert_eq!(buf, [2, 3, 4, 5]);
    fill_from(&pcm, 3, &mut buf, 0);
    assert_eq!(buf, [4, 5, 0, 0]);
    fill_from(&pcm, -2, &mut buf, 0);
    assert_eq!(buf, [0, 0, 1, 2]);
    fill_from(&pcm, 5, &mut buf, -1);
    assert_eq!(buf, [-1; 4]);
    fill_from(&pcm, -4, &mut buf, 7);
    assert_eq!(buf, [7; 4]);
    let mut wide = [9i16; 9];
    fill_from(&pcm, -2, &mut wide, 0);
    assert_eq!(wide, [0, 0, 1, 2, 3, 4, 5, 0, 0]);
    let mut empty: [i16; 0] = [];
    fill_from(&pcm, 0, &mut empty, 0);
    fill_from(&[], 0, &mut buf, 3);
    assert_eq!(buf, [3; 4]);
}

#[test]
fn fill_converted_maps_each_sample() {
    let pcm = [0u8, 128, 255];
    let mut buf = [9.0f32; 5];
    fill_converted(&pcm, -1, &mut buf, 0.0, |s: u8| f32::from(s) * 2.0 - 1.0);
    assert_eq!(buf, [0.0, -1.0, 255.0, 509.0, 0.0]);
    let mut ints = [0i32; 2];
    fill_converted(&pcm, 2, &mut ints, -7, |s: u8| i32::from(s) + 1);
    assert_eq!(ints, [256, -7]);
}
