use omv_extract::color::RgbaFrame;
use omv_extract::converter::ConverterState;
use omv_extract::error::ConvertError;
use omv_extract::ffmpeg::{encoder_arguments, FfmepgConverter, FinishStep, SpawnOutcome};
use omv_extract::h264::H264Converter;
use omv_extract::piped::{frame_record_bytes, header_line_bytes, PipedPngConverter};
use omv_extract::rational::FrameRate;
use omv_extract::sequence::{frame_file_name_bytes, JpgConverter, PngConverter};

fn frame(w: u32, h: u32) -> RgbaFrame {
    let pixels = (0..w * h * 4).map(|i| (i % 251) as u8).collect();
    RgbaFrame { width: w, height: h, pixels }
}

fn split_record(rec: &[u8]) -> (String, Vec<u8>) {
    let mut lines = 0;
    let mut at = 0;
    while lines < 3 {
        if rec[at] == b'\n' {
            lines += 1;
        }
        at += 1;
    }
    (String::from_utf8(rec[..at].to_vec()).unwrap(), rec[at..].to_vec())
}

#[test]
fn every_converter_refuses_use_before_prepare() {
    let f = frame(2, 2);
    let mut p = PipedPngConverter::new("out");
    assert_eq!(p.convert_frame(&f, 0).unwrap_err(), ConvertError::PrepareBeforeUse);
    let mut p = PipedPngConverter::new("out");
    assert_eq!(p.finish().unwrap_err(), ConvertError::PrepareBeforeUse);
    let mut c = PngConverter::new("out/x");
    assert_eq!(c.convert_frame(&f, 0).err().unwrap(), ConvertError::PrepareBeforeUse);
    let mut c = PngConverter::new("out/x");
    assert_eq!(c.finish().unwrap_err(), ConvertError::PrepareBeforeUse);
    let mut c = JpgConverter::new("out/x");
    assert_eq!(c.convert_frame(&f, 0).err().unwrap(), ConvertError::PrepareBeforeUse);
    let mut c = JpgConverter::new("out/x");
    assert_eq!(c.finish().unwrap_err(), ConvertError::PrepareBeforeUse);
    let mut c = FfmepgConverter::new("out.mp4");
    assert_eq!(c.convert_frame(&f, 0).unwrap_err(), ConvertError::PrepareBeforeUse);
    let mut c = FfmepgConverter::new("out.mp4");
    assert_eq!(c.finish().unwrap_err(), ConvertError::PrepareBeforeUse);
    let mut c = H264Converter::new("out");
    assert_eq!(c.convert_frame(&f, 0).unwrap_err(), ConvertError::PrepareBeforeUse);
    let mut c = H264Converter::new("out");
    assert_eq!(c.finish().unwrap_err(), ConvertError::PrepareBeforeUse);
    assert_eq!(c.state(), ConverterState::Failed);
}

#[test]
fn failed_converter_stays_failed() {
    let mut p = PipedPngConverter::new("out");
    assert!(p.finish().is_err());
    assert_eq!(p.prepare(2, 2, FrameRate::Whole(24)).unwrap_err(), ConvertError::InvalidState);
    assert_eq!(p.convert_frame(&frame(2, 2), 0).unwrap_err(), ConvertError::InvalidState);
    assert_eq!(p.state(), ConverterState::Failed);
}

#[test]
fn stream_header_line_is_exact() {
    let mut p = PipedPngConverter::new("ignored");
    let line = p.prepare(640, 480, FrameRate::Thousandths(29970)).unwrap();
    assert_eq!(String::from_utf8(line).unwrap(), "PXY4M W640 H480 F2997/100 Crgba Enc:png\n");
    assert_eq!(
        header_line_bytes(2, 1, 24, 1),
        b"PXY4M W2 H1 F24/1 Crgba Enc:png\n".to_vec()
    );
}

#[test]
fn header_is_emitted_once_across_frames() {
    let mut p = PipedPngConverter::new("ignored");
    let mut out = p.prepare(3, 2, FrameRate::Whole(24)).unwrap();
    for id in 0..3 {
        let rec = p.convert_frame(&frame(3, 2), id).unwrap();
        assert!(rec.starts_with(b"FRAME\n"));
        out.extend_from_slice(&rec);
    }
    p.finish().unwrap();
    assert_eq!(p.state(), ConverterState::Finished);
    let text = String::from_utf8_lossy(&out);
    assert_eq!(text.matches("PXY4M").count(), 1);
    assert_eq!(text.matches("FRAME\n").count(), 3);
}

#[test]
fn bytes_line_counts_the_png_payload() {
    let mut p = PipedPngConverter::new("ignored");
    p.prepare(4, 3, FrameRate::Whole(30)).unwrap();
    let rec = p.convert_frame(&frame(4, 3), 7).unwrap();
    let (head, payload) = split_record(&rec);
    assert_eq!(head, format!("FRAME\nPTS 7\nBYTES {}\n", payload.len()));
    assert_eq!(&payload[..8], &[0x89, b'P', b'N', b'G', 0x0d, 0x0a, 0x1a, 0x0a]);
    assert_ne!(payload, frame(4, 3).pixels);
}

#[test]
fn frame_record_layout() {
    let rec = frame_record_bytes(12, &vec![1, 2, 3]);
    assert_eq!(rec, b"FRAME\nPTS 12\nBYTES 3\n\x01\x02\x03".to_vec());
    let rec = frame_record_bytes(0, &Vec::new());
    assert_eq!(rec, b"FRAME\nPTS 0\nBYTES 0\n".to_vec());
}

#[test]
fn wrong_size_frame_is_refused_without_output() {
    let mut p = PipedPngConverter::new("ignored");
    p.prepare(100, 100, FrameRate::Whole(25)).unwrap();
    let r = p.convert_frame(&frame(99, 100), 0);
    assert_eq!(r, Err(ConvertError::DimensionMismatch));
    assert_eq!(p.state(), ConverterState::Failed);
}

#[test]
fn three_frames_give_three_sequential_files() {
    let mut c = PngConverter::new("out/frames");
    c.prepare(2, 2).unwrap();
    let mut names = Vec::new();
    for id in 0..3 {
        let f = c.convert_frame(&frame(2, 2), id).ok().unwrap();
        assert_eq!(&f.bytes[1..4], b"PNG");
        names.push(String::from_utf8(f.name).unwrap());
    }
    c.finish().unwrap();
    assert_eq!(names, vec!["frame_0000.png", "frame_0001.png", "frame_0002.png"]);
    assert_eq!(c.path(), "out/frames");
}

#[test]
fn jpeg_frames_are_named_and_encoded() {
    let mut c = JpgConverter::new("out/frames");
    c.prepare(8, 8).unwrap();
    let f = c.convert_frame(&frame(8, 8), 42).ok().unwrap();
    assert_eq!(String::from_utf8(f.name).unwrap(), "frame_0042.jpg");
    assert_eq!(&f.bytes[..2], &[0xff, 0xd8]);
}

#[test]
fn file_names_pad_to_four_digits() {
    assert_eq!(frame_file_name_bytes(7, "png"), b"frame_0007.png".to_vec());
    assert_eq!(frame_file_name_bytes(123, "jpg"), b"frame_0123.jpg".to_vec());
    assert_eq!(frame_file_name_bytes(12345, "png"), b"frame_12345.png".to_vec());
}

#[test]
fn external_encoder_closes_input_before_waiting() {
    let mut c = FfmepgConverter::new("out.mp4");
    c.prepare(2, 2, SpawnOutcome::Running).unwrap();
    c.convert_frame(&frame(2, 2), 0).unwrap();
    let steps = c.finish().unwrap();
    assert_eq!(steps, vec![FinishStep::CloseInput, FinishStep::WaitForExit]);
    assert_eq!(c.child_exited(Some(0)), Ok(()));
}

#[test]
fn external_encoder_exit_code_surfaces() {
    let mut c = FfmepgConverter::new("out.mp4");
    c.prepare(2, 2, SpawnOutcome::Running).unwrap();
    c.finish().unwrap();
    assert_eq!(c.child_exited(Some(3)), Err(ConvertError::ChildProcessExitFailure(Some(3))));
    assert_eq!(c.state(), ConverterState::Failed);
}

#[test]
fn external_encoder_spawn_failures() {
    let mut c = FfmepgConverter::new("out.mp4");
    assert_eq!(c.prepare(2, 2, SpawnOutcome::ToolNotFound), Err(ConvertError::ToolingNotFound));
    let mut c = FfmepgConverter::new("out.mp4");
    assert_eq!(c.prepare(2, 2, SpawnOutcome::SpawnFailed), Err(ConvertError::SpawnFailure));
    let mut c = FfmepgConverter::new("out.mp4");
    c.prepare(2, 2, SpawnOutcome::Running).unwrap();
    assert_eq!(c.convert_frame(&frame(3, 2), 0), Err(ConvertError::DimensionMismatch));
}

#[test]
fn muxed_writer_buffers_bitstream() {
    let mut c = H264Converter::new("movie");
    c.prepare(16, 16, 24).unwrap();
    c.convert_frame(&frame(16, 16), 0).unwrap();
    let first = c.buffer().len();
    assert!(first > 0);
    assert_eq!(&c.buffer()[..3], &[0, 0, 0]);
    c.convert_frame(&frame(16, 16), 1).unwrap();
    assert!(c.buffer().len() > first);
    c.finish().unwrap();
    assert_eq!((c.width(), c.height(), c.fps()), (16, 16, 24));
    assert_eq!(c.convert_frame(&frame(16, 16), 2), Err(ConvertError::InvalidState));
}

#[test]
fn muxed_writer_refuses_odd_sizes() {
    let mut c = H264Converter::new("movie");
    c.prepare(3, 2, 24).unwrap();
    assert_eq!(c.convert_frame(&frame(3, 2), 0), Err(ConvertError::EncodeFailure));
    assert!(c.buffer().is_empty());
    let mut c = H264Converter::new("movie");
    c.prepare(4, 4, 24).unwrap();
    assert_eq!(c.convert_frame(&frame(2, 4), 0), Err(ConvertError::DimensionMismatch));
}

#[test]
fn external_encoder_arguments() {
    let args: Vec<String> = encoder_arguments(640, 480, FrameRate::Thousandths(23976))
        .into_iter()
        .map(|a| String::from_utf8(a).unwrap())
        .collect();
    let expected = [
        "-y", "-f", "rawvideo", "-pix_fmt", "rgba", "-s", "640x480", "-r", "2997/125", "-i", "-",
        "-c:v", "libx264", "-pix_fmt", "yuv420p", "-profile:v", "main", "-crf", "18",
    ];
    assert_eq!(args, expected);
}

#[test]
fn empty_frame_cannot_be_encoded() {
    let mut p = PipedPngConverter::new("ignored");
    p.prepare(0, 0, FrameRate::Whole(24)).unwrap();
    assert_eq!(p.convert_frame(&frame(0, 0), 0), Err(ConvertError::EncodeFailure));
    let mut c = PngConverter::new("out/frames");
    c.prepare(0, 4).unwrap();
    assert_eq!(c.convert_frame(&frame(0, 4), 0).err().unwrap(), ConvertError::EncodeFailure);
}

#[test]
fn jpeg_refuses_sides_beyond_its_limit() {
    let mut c = JpgConverter::new("out/frames");
    c.prepare(65536, 1).unwrap();
    assert_eq!(c.convert_frame(&frame(65536, 1), 0).err().unwrap(), ConvertError::EncodeFailure);
    let mut c = JpgConverter::new("out/frames");
    c.prepare(65535, 1).unwrap();
    assert!(c.convert_frame(&frame(65535, 1), 0).is_ok());
}
