use vstd::prelude::*;
use crate::error::ConvertError;
use crate::header::{HEADER_LEN, OmvHeader, parse_header};
use crate::locate::{STREAM_MARKER, first_occurrence, locate_stream, occurs_at};

verus! {

/// The decode engine's code for planar 4:4:4, the one layout understood here.
pub const PIXEL_FORMAT_444: u32 = 3;

/// Reads the header and finds where the embedded stream starts.
pub fn extract_stream(bytes: &[u8]) -> (r: Result<(OmvHeader, usize), ConvertError>)
    ensures
        bytes@.len() < HEADER_LEN ==> r == Err::<(OmvHeader, usize), ConvertError>(
            ConvertError::TruncatedHeader,
        ),
        bytes@.len() >= HEADER_LEN ==> match r {
            Ok((h, start)) => h.wf() && h.bytes() == bytes@.subrange(0, HEADER_LEN as int)
                && first_occurrence(bytes@, STREAM_MARKER@, start as int),
            Err(e) => e == ConvertError::MissingEmbeddedStream && forall|j: int|
                !occurs_at(bytes@, STREAM_MARKER@, j),
        },
{
    let header = match parse_header(bytes) {
        Err(e) => return Err(e),
        Ok(h) => h,
    };
    let marker = STREAM_MARKER;
    match locate_stream(bytes, marker.as_slice()) {
        Err(e) => Err(e),
        Ok(start) => Ok((header, start)),
    }
}

/// Judges what the decode engine reported after opening the stream: a
/// negative open status, no video track, or a layout other than 4:4:4 is
/// refused, in that order.
pub fn check_video(open_status: i32, has_video: i32, pixel_format: u32) -> (r: Result<(), ConvertError>)
    ensures
        r == if open_status < 0 {
            Err(ConvertError::DecodeEngineOpenFailure)
        } else if has_video == 0 {
            Err(ConvertError::NoVideoStream)
        } else if pixel_format != PIXEL_FORMAT_444 {
            Err(ConvertError::UnsupportedPixelFormat)
        } else {
            Ok::<(), ConvertError>(())
        },
{
    if open_status < 0 {
        Err(ConvertError::DecodeEngineOpenFailure)
    } else if has_video == 0 {
        Err(ConvertError::NoVideoStream)
    } else if pixel_format != PIXEL_FORMAT_444 {
        Err(ConvertError::UnsupportedPixelFormat)
    } else {
        Ok(())
    }
}

} // verus!
