use vstd::prelude::*;
use vstd::string::StringSliceAdditionalSpecFns;
use crate::color::{RgbaFrame, rgba_to_rgb};
use crate::converter::{ConverterState, Operation, step, transition, state_after};
use crate::encode::{encode_jpeg, encode_png, jpeg_encoding, png_encoding};
use crate::error::ConvertError;
use crate::text::{padded4, push_all, push_padded4};

verus! {

/// The file name of frame `frame_id`: `frame_`, the index padded to four
/// digits, a dot and the extension.
pub open spec fn frame_file_name(frame_id: u32, ext: Seq<u8>) -> Seq<u8> {
    "frame_".spec_bytes() + padded4(frame_id as nat) + ".".spec_bytes() + ext
}

/// Builds the file name of one frame.
pub fn frame_file_name_bytes(frame_id: u32, ext: &str) -> (r: Vec<u8>)
    ensures
        r@ == frame_file_name(frame_id, ext.spec_bytes()),
{
    let mut out: Vec<u8> = Vec::new();
    push_all(&mut out, "frame_".as_bytes());
    push_padded4(&mut out, frame_id);
    push_all(&mut out, ".".as_bytes());
    push_all(&mut out, ext.as_bytes());
    proof {
        reveal_strlit("frame_");
        reveal_strlit(".");
        assert(out@ =~= frame_file_name(frame_id, ext.spec_bytes()));
    }
    out
}

/// `rgb` is the raster without its alpha bytes.
pub open spec fn rgb_of(image: &RgbaFrame, rgb: Seq<u8>) -> bool {
    rgb.len() == image.width * image.height * 3 && forall|i: int, c: int|
        0 <= i < image.width * image.height && 0 <= c < 3 ==> #[trigger] rgb[3 * i + c]
            == image.pixels@[4 * i + c]
}

/// One still image to store: its file name, which replaces the last segment
/// of the configured output path, and its encoded bytes.
pub struct FrameFile {
    pub name: Vec<u8>,
    pub bytes: Vec<u8>,
}

/// Writes every frame as a PNG file named `frame_NNNN.png` beside the last
/// segment of the output path. The caller creates the directory on `prepare`
/// and writes each returned file.
pub struct PngConverter {
    path: String,
    state: ConverterState,
}

/// Writes every frame as a JPEG file named `frame_NNNN.jpg` beside the last
/// segment of the output path. The caller creates the directory on `prepare`
/// and writes each returned file.
pub struct JpgConverter {
    path: String,
    state: ConverterState,
}

impl PngConverter {
    pub closed spec fn spec_state(&self) -> ConverterState {
        self.state
    }

    pub closed spec fn spec_path(&self) -> Seq<char> {
        self.path@
    }

    pub fn new(path: &str) -> (r: Self)
        ensures
            r.spec_state() == ConverterState::Uninitialized,
            r.spec_path() == path@,
    {
        PngConverter { path: path.to_owned(), state: ConverterState::Uninitialized }
    }

    pub fn path(&self) -> (r: &str)
        ensures
            r@ == self.spec_path(),
    {
        self.path.as_str()
    }

    pub fn state(&self) -> (r: ConverterState)
        ensures
            r == self.spec_state(),
    {
        self.state
    }

    /// Starts the job; the caller then creates the output directory.
    pub fn prepare(&mut self, _width: u32, _height: u32) -> (r: Result<(), ConvertError>)
        ensures
            final(self).spec_state() == state_after(old(self).spec_state(), Operation::Prepare),
            final(self).spec_path() == old(self).spec_path(),
            r == match transition(old(self).spec_state(), Operation::Prepare) {
                Err(e) => Err::<(), ConvertError>(e),
                Ok(_) => Ok(()),
            },
    {
        match step(self.state, Operation::Prepare) {
            Err(e) => {
                self.state = ConverterState::Failed;
                Err(e)
            },
            Ok(next) => {
                self.state = next;
                Ok(())
            },
        }
    }

    /// Encodes one frame as PNG and names its file after the frame index.
    pub fn convert_frame(&mut self, image: &RgbaFrame, frame_id: u32) -> (r: Result<
        FrameFile,
        ConvertError,
    >)
        requires
            image.wf(),
        ensures
            final(self).spec_path() == old(self).spec_path(),
            match transition(old(self).spec_state(), Operation::ConvertFrame) {
                Err(e) => r == Err::<FrameFile, ConvertError>(e) && final(self).spec_state()
                    == ConverterState::Failed,
                Ok(next) => match r {
                    Ok(f) => f.name@ == frame_file_name(frame_id, "png".spec_bytes()) && f.bytes@
                        == png_encoding(image.width, image.height, image.pixels@)
                        && final(self).spec_state() == next,
                    Err(e) => e == ConvertError::EncodeFailure && final(self).spec_state()
                        == ConverterState::Failed,
                },
            },
            transition(old(self).spec_state(), Operation::ConvertFrame) is Ok && image.width > 0
                && image.height > 0 ==> r is Ok,
    {
        let next = match step(self.state, Operation::ConvertFrame) {
            Err(e) => {
                self.state = ConverterState::Failed;
                return Err(e);
            },
            Ok(n) => n,
        };
        match encode_png(image.width, image.height, &image.pixels) {
            Err(_) => {
                self.state = ConverterState::Failed;
                Err(ConvertError::EncodeFailure)
            },
            Ok(bytes) => {
                self.state = next;
                Ok(FrameFile { name: frame_file_name_bytes(frame_id, "png"), bytes })
            },
        }
    }

    /// Ends the job; nothing remains to be written.
    pub fn finish(&mut self) -> (r: Result<(), ConvertError>)
        ensures
            final(self).spec_state() == state_after(old(self).spec_state(), Operation::Finish),
            final(self).spec_path() == old(self).spec_path(),
            r == match transition(old(self).spec_state(), Operation::Finish) {
                Err(e) => Err::<(), ConvertError>(e),
                Ok(_) => Ok(()),
            },
    {
        match step(self.state, Operation::Finish) {
            Err(e) => {
                self.state = ConverterState::Failed;
                Err(e)
            },
            Ok(next) => {
                self.state = next;
                Ok(())
            },
        }
    }

    /// Records that the caller could not create the directory or write a
    /// file.
    pub fn record_io_failure(&mut self) -> (r: ConvertError)
        ensures
            r == ConvertError::IoFailure,
            final(self).spec_state() == ConverterState::Failed,
            final(self).spec_path() == old(self).spec_path(),
    {
        self.state = ConverterState::Failed;
        ConvertError::IoFailure
    }
}

impl JpgConverter {
    pub closed spec fn spec_state(&self) -> ConverterState {
        self.state
    }

    pub closed spec fn spec_path(&self) -> Seq<char> {
        self.path@
    }

    pub fn new(path: &str) -> (r: Self)
        ensures
            r.spec_state() == ConverterState::Uninitialized,
            r.spec_path() == path@,
    {
        JpgConverter { path: path.to_owned(), state: ConverterState::Uninitialized }
    }

    pub fn path(&self) -> (r: &str)
        ensures
            r@ == self.spec_path(),
    {
        self.path.as_str()
    }

    pub fn state(&self) -> (r: ConverterState)
        ensures
            r == self.spec_state(),
    {
        self.state
    }

    /// Starts the job; the caller then creates the output directory.
    pub fn prepare(&mut self, _width: u32, _height: u32) -> (r: Result<(), ConvertError>)
        ensures
            final(self).spec_state() == state_after(old(self).spec_state(), Operation::Prepare),
            final(self).spec_path() == old(self).spec_path(),
            r == match transition(old(self).spec_state(), Operation::Prepare) {
                Err(e) => Err::<(), ConvertError>(e),
                Ok(_) => Ok(()),
            },
    {
        match step(self.state, Operation::Prepare) {
            Err(e) => {
                self.state = ConverterState::Failed;
                Err(e)
            },
            Ok(next) => {
                self.state = next;
                Ok(())
            },
        }
    }

    /// Drops the alpha channel, encodes the frame as JPEG and names its file after the frame index.
    pub fn convert_frame(&mut self, image: &RgbaFrame, frame_id: u32) -> (r: Result<
        FrameFile,
        ConvertError,
    >)
        requires
            image.wf(),
        ensures
            final(self).spec_path() == old(self).spec_path(),
            match transition(old(self).spec_state(), Operation::ConvertFrame) {
                Err(e) => r == Err::<FrameFile, ConvertError>(e) && final(self).spec_state()
                    == ConverterState::Failed,
                Ok(next) => match r {
                    Ok(f) => f.name@ == frame_file_name(frame_id, "jpg".spec_bytes()) && exists|
                        rgb: Seq<u8>|
                        #![trigger jpeg_encoding(image.width, image.height, rgb)]
                        rgb_of(image, rgb) && f.bytes@ == jpeg_encoding(
                            image.width,
                            image.height,
                            rgb,
                        )
                        && final(self).spec_state() == next,
                    Err(e) => e == ConvertError::EncodeFailure && final(self).spec_state()
                        == ConverterState::Failed,
                },
            },
            transition(old(self).spec_state(), Operation::ConvertFrame) is Ok && 0 < image.width
                <= 65535 && 0 < image.height <= 65535 ==> r is Ok,
    {
        let next = match step(self.state, Operation::ConvertFrame) {
            Err(e) => {
                self.state = ConverterState::Failed;
                return Err(e);
            },
            Ok(n) => n,
        };
        let rgb = rgba_to_rgb(image);
        match encode_jpeg(image.width, image.height, &rgb) {
            Err(_) => {
                self.state = ConverterState::Failed;
                Err(ConvertError::EncodeFailure)
            },
            Ok(bytes) => {
                self.state = next;
                Ok(FrameFile { name: frame_file_name_bytes(frame_id, "jpg"), bytes })
            },
        }
    }

    /// Ends the job; nothing remains to be written.
    pub fn finish(&mut self) -> (r: Result<(), ConvertError>)
        ensures
            final(self).spec_state() == state_after(old(self).spec_state(), Operation::Finish),
            final(self).spec_path() == old(self).spec_path(),
            r == match transition(old(self).spec_state(), Operation::Finish) {
                Err(e) => Err::<(), ConvertError>(e),
                Ok(_) => Ok(()),
            },
    {
        match step(self.state, Operation::Finish) {
            Err(e) => {
                self.state = ConverterState::Failed;
                Err(e)
            },
            Ok(next) => {
                self.state = next;
                Ok(())
            },
        }
    }

    /// Records that the caller could not create the directory or write a
    /// file.
    pub fn record_io_failure(&mut self) -> (r: ConvertError)
        ensures
            r == ConvertError::IoFailure,
            final(self).spec_state() == ConverterState::Failed,
            final(self).spec_path() == old(self).spec_path(),
    {
        self.state = ConverterState::Failed;
        ConvertError::IoFailure
    }
}

} // verus!
