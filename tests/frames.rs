use omv_extract::color::{frame_is_opaque, planar_to_rgba};
use omv_extract::source::{DataSource, SEEK_CURRENT, SEEK_END, SEEK_START};

#[test]
fn opaque_frame_interleaves_red_green_blue() {
    // 2x1 frame, planes blue, green, red.
    let data = vec![10, 11, 20, 21, 30, 31];
    let f = planar_to_rgba(&data, 2, 1, true);
    assert_eq!(f.width, 2);
    assert_eq!(f.height, 1);
    assert_eq!(f.pixels, vec![30, 20, 10, 0xff, 31, 21, 11, 0xff]);
}

#[test]
fn alpha_comes_from_thirds_of_the_frame() {
    // 1x3 frame: plane k holds values 10*k + y.
    let mut data = Vec::new();
    for plane in 0..4u8 {
        for y in 0..3u8 {
            data.push(plane * 10 + y);
        }
    }
    let f = planar_to_rgba(&data, 1, 3, false);
    // (3 + 2) / 3 = 1 and 2: row 0 reads plane 1, row 1 plane 2, row 2 plane 3.
    assert_eq!(f.pixels, vec![20, 10, 0, 10, 21, 11, 1, 21, 22, 12, 2, 32]);
}

#[test]
fn opacity_follows_header_height() {
    assert!(frame_is_opaque(480, 480));
    assert!(!frame_is_opaque(480, 1440));
}

#[test]
fn seek_clamps_and_rejects_unknown_origin() {
    let mut s = DataSource::new(vec![1, 2, 3, 4, 5]);
    assert_eq!(s.seek(3, SEEK_START), 0);
    assert_eq!(s.position(), 3);
    assert_eq!(s.seek(-10, SEEK_CURRENT), 0);
    assert_eq!(s.position(), 0);
    assert_eq!(s.seek(10, SEEK_START), 0);
    assert_eq!(s.position(), 5);
    assert_eq!(s.seek(-2, SEEK_END), 0);
    assert_eq!(s.position(), 3);
    assert_eq!(s.seek(1, 7), -1);
    assert_eq!(s.position(), 3);
}

#[test]
fn read_stops_at_the_end() {
    let mut s = DataSource::new(vec![1, 2, 3, 4, 5]);
    assert_eq!(s.read(2, 1), vec![1, 2]);
    assert_eq!(s.read(1, 10), vec![3, 4, 5]);
    assert_eq!(s.read(4, 4), Vec::<u8>::new());
    assert_eq!(s.close(), 0);
    assert_eq!(s.close(), 0);
}

#[test]
fn huge_read_request_does_not_overflow() {
    let mut s = DataSource::new(vec![9, 8]);
    assert_eq!(s.read(usize::MAX, usize::MAX), vec![9, 8]);
}
