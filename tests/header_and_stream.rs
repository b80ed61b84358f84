use omv_extract::decode::{check_video, extract_stream, PIXEL_FORMAT_444};
use omv_extract::error::ConvertError;
use omv_extract::header::{parse_header, HEADER_LEN};
use omv_extract::locate::locate_stream;
use omv_extract::rational::{fps_to_rational, gcd_u32, FrameRate};

fn sample_header() -> Vec<u8> {
    let mut b: Vec<u8> = (0..HEADER_LEN as u32).map(|i| (i * 7 + 3) as u8).collect();
    b[44..48].copy_from_slice(&640u32.to_le_bytes());
    b[48..52].copy_from_slice(&480u32.to_le_bytes());
    b
}

#[test]
fn header_fields_are_little_endian() {
    let b = sample_header();
    let h = parse_header(&b).unwrap();
    assert_eq!(h.offset, u32::from_le_bytes([b[0], b[1], b[2], b[3]]));
    assert_eq!(h.major_version, b[4]);
    assert_eq!(h.minor_version, b[5]);
    assert_eq!(h.padding, b[6..8].to_vec());
    assert_eq!(h.padding2, b[8..44].to_vec());
    assert_eq!(h.metadata.width, 640);
    assert_eq!(h.metadata.height, 480);
    assert_eq!(h.metadata.frame_count, u32::from_le_bytes([b[72], b[73], b[74], b[75]]));
}

#[test]
fn header_round_trip_reproduces_bytes() {
    let b = sample_header();
    let h = parse_header(&b).unwrap();
    assert_eq!(h.to_bytes(), b);
    let again = parse_header(&h.to_bytes()).unwrap();
    assert_eq!(again.metadata, h.metadata);
}

#[test]
fn header_reads_only_the_fixed_prefix() {
    let mut b = sample_header();
    b.extend_from_slice(b"OggS trailing");
    let h = parse_header(&b).unwrap();
    assert_eq!(h.to_bytes(), b[..HEADER_LEN].to_vec());
}

#[test]
fn short_header_is_truncated() {
    let b = vec![0u8; HEADER_LEN - 1];
    assert_eq!(parse_header(&b).unwrap_err(), ConvertError::TruncatedHeader);
    assert_eq!(parse_header(&[]).unwrap_err(), ConvertError::TruncatedHeader);
}

#[test]
fn frame_rate_reduction() {
    assert_eq!(fps_to_rational(FrameRate::Whole(24)), (24, 1));
    assert_eq!(fps_to_rational(FrameRate::Thousandths(24000)), (24, 1));
    assert_eq!(fps_to_rational(FrameRate::Thousandths(29970)), (2997, 100));
    assert_eq!(fps_to_rational(FrameRate::Thousandths(23976)), (2997, 125));
    assert_eq!(fps_to_rational(FrameRate::Thousandths(0)), (0, 1));
}

#[test]
fn gcd_is_floored_at_one() {
    assert_eq!(gcd_u32(12, 18), 6);
    assert_eq!(gcd_u32(18, 12), 6);
    assert_eq!(gcd_u32(7, 0), 7);
    assert_eq!(gcd_u32(0, 0), 1);
    assert_eq!(gcd_u32(29970, 1000), 10);
}

#[test]
fn missing_marker_is_reported() {
    let b = b"no stream in here at all".to_vec();
    assert_eq!(locate_stream(&b, b"OggS").unwrap_err(), ConvertError::MissingEmbeddedStream);
    assert_eq!(locate_stream(&[], b"OggS").unwrap_err(), ConvertError::MissingEmbeddedStream);
}

#[test]
fn first_of_two_markers_wins() {
    let b = b"xxOggSyyyOggSzz".to_vec();
    assert_eq!(locate_stream(&b, b"OggS").unwrap(), 2);
    let b = b"OgOggS".to_vec();
    assert_eq!(locate_stream(&b, b"OggS").unwrap(), 2);
}

#[test]
fn marker_is_searched_in_the_whole_file() {
    let mut b = sample_header();
    b[10..14].copy_from_slice(b"OggS");
    b.extend_from_slice(b"OggS payload");
    let (h, start) = extract_stream(&b).unwrap();
    assert_eq!(start, 10);
    assert_eq!(h.metadata.width, 640);
}

#[test]
fn extract_reports_each_failure() {
    assert_eq!(extract_stream(b"OggS").unwrap_err(), ConvertError::TruncatedHeader);
    let b = vec![0u8; HEADER_LEN + 10];
    assert_eq!(extract_stream(&b).unwrap_err(), ConvertError::MissingEmbeddedStream);
    let mut b = vec![0u8; HEADER_LEN];
    b.extend_from_slice(b"OggS");
    assert_eq!(extract_stream(&b).unwrap().1, HEADER_LEN);
}

#[test]
fn video_checks_in_order() {
    assert_eq!(check_video(-1, 0, 0), Err(ConvertError::DecodeEngineOpenFailure));
    assert_eq!(check_video(0, 0, PIXEL_FORMAT_444), Err(ConvertError::NoVideoStream));
    assert_eq!(check_video(0, 1, 0), Err(ConvertError::UnsupportedPixelFormat));
    assert_eq!(check_video(0, 1, PIXEL_FORMAT_444), Ok(()));
}
