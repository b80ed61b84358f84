use vstd::prelude::*;
use crate::color::RgbaFrame;
use crate::converter::{ConverterState, Operation, step, transition, state_after};
use crate::error::ConvertError;
use openh264::encoder::Encoder;

verus! {

#[verifier::external_type_specification]
#[verifier::external_body]
pub struct ExEncoder(openh264::encoder::Encoder);

#[verifier::external_type_specification]
#[verifier::external_body]
pub struct ExH264Error(openh264::Error);

/// Relies on openh264's `Encoder::new`, which builds an encoder with the
/// default configuration or reports the engine's error.
#[verifier::external_body]
fn new_encoder() -> (r: Result<Encoder, openh264::Error>) {
    Encoder::new()
}

/// Relies on openh264's `RgbaSliceU8::new` (which panics unless the buffer
/// holds four bytes per pixel and both sides are even),
/// `YUVBuffer::from_rgb_source`, `Encoder::encode` and
/// `EncodedBitStream::write`: the NAL units of one frame.
#[verifier::external_body]
fn encode_h264(encoder: &mut Encoder, width: u32, height: u32, pixels: &Vec<u8>) -> (r: Result<Vec<u8>, openh264::Error>)
    requires
        pixels@.len() == width * height * 4,
        width % 2 == 0,
        height % 2 == 0,
{
    let rgba = openh264::formats::RgbaSliceU8::new(pixels, (width as usize, height as usize));
    let yuv = openh264::formats::YUVBuffer::from_rgb_source(rgba);
    let mut out: Vec<u8> = Vec::new();
    encoder.encode(&yuv)?.write(&mut out)?;
    Ok(out)
}

/// Encodes every frame to H.264 and collects the bitstream in memory; on
/// `finish` the caller muxes the whole buffer into `<output>.mp4` at the
/// prepared rate.
pub struct H264Converter {
    path: String,
    encoder: Option<Encoder>,
    fps: u32,
    width: u32,
    height: u32,
    buffer: Vec<u8>,
    state: ConverterState,
}

impl H264Converter {
    pub closed spec fn spec_state(&self) -> ConverterState {
        self.state
    }

    pub closed spec fn spec_path(&self) -> Seq<char> {
        self.path@
    }

    pub closed spec fn spec_width(&self) -> u32 {
        self.width
    }

    pub closed spec fn spec_height(&self) -> u32 {
        self.height
    }

    pub closed spec fn spec_fps(&self) -> u32 {
        self.fps
    }

    /// An encoder is running whenever frames are accepted.
    pub closed spec fn wf(&self) -> bool {
        (self.state == ConverterState::Prepared || self.state == ConverterState::Streaming)
            ==> self.encoder is Some
    }

    /// The bitstream gathered so far.
    pub closed spec fn spec_buffer(&self) -> Seq<u8> {
        self.buffer@
    }

    pub fn new(path: &str) -> (r: Self)
        ensures
            r.spec_state() == ConverterState::Uninitialized,
            r.spec_path() == path@,
            r.spec_buffer() == Seq::<u8>::empty(),
            r.wf(),
    {
        H264Converter {
            path: path.to_owned(),
            encoder: None,
            fps: 0,
            width: 0,
            height: 0,
            buffer: Vec::new(),
            state: ConverterState::Uninitialized,
        }
    }

    pub fn path(&self) -> (r: &str)
        ensures
            r@ == self.spec_path(),
    {
        self.path.as_str()
    }

    pub fn state(&self) -> (r: ConverterState)
        ensures
            r == self.spec_state(),
    {
        self.state
    }

    pub fn width(&self) -> (r: u32)
        ensures
            r == self.spec_width(),
    {
        self.width
    }

    pub fn height(&self) -> (r: u32)
        ensures
            r == self.spec_height(),
    {
        self.height
    }

    pub fn fps(&self) -> (r: u32)
        ensures
            r == self.spec_fps(),
    {
        self.fps
    }

    pub fn buffer(&self) -> (r: &Vec<u8>)
        ensures
            r@ == self.spec_buffer(),
    {
        &self.buffer
    }

    /// Records the frame size and the whole frame rate used for muxing, and
    /// starts an encoder.
    pub fn prepare(&mut self, width: u32, height: u32, fps: u32) -> (r: Result<(), ConvertError>)
        requires
            old(self).wf(),
        ensures
            final(self).wf(),
            final(self).spec_path() == old(self).spec_path(),
            final(self).spec_buffer() == old(self).spec_buffer(),
            match transition(old(self).spec_state(), Operation::Prepare) {
                Err(e) => r == Err::<(), ConvertError>(e) && final(self).spec_state()
                    == ConverterState::Failed,
                Ok(next) => match r {
                    Ok(_) => final(self).spec_state() == next && final(self).spec_width() == width
                        && final(self).spec_height() == height && final(self).spec_fps() == fps,
                    Err(e) => e == ConvertError::EncodeFailure && final(self).spec_state()
                        == ConverterState::Failed,
                },
            },
    {
        let next = match step(self.state, Operation::Prepare) {
            Err(e) => {
                self.state = ConverterState::Failed;
                return Err(e);
            },
            Ok(n) => n,
        };
        match new_encoder() {
            Err(_) => {
                self.state = ConverterState::Failed;
                Err(ConvertError::EncodeFailure)
            },
            Ok(encoder) => {
                self.encoder = Some(encoder);
                self.width = width;
                self.height = height;
                self.fps = fps;
                self.state = next;
                Ok(())
            },
        }
    }

    /// Encodes a frame of the prepared size and appends its bitstream. Frames
    /// with an odd side cannot be encoded.
    pub fn convert_frame(&mut self, image: &RgbaFrame, _frame_id: u32) -> (r: Result<
        (),
        ConvertError,
    >)
        requires
            old(self).wf(),
            image.wf(),
        ensures
            final(self).wf(),
            final(self).spec_path() == old(self).spec_path(),
            final(self).spec_width() == old(self).spec_width(),
            final(self).spec_height() == old(self).spec_height(),
            final(self).spec_fps() == old(self).spec_fps(),
            match transition(old(self).spec_state(), Operation::ConvertFrame) {
                Err(e) => r == Err::<(), ConvertError>(e) && final(self).spec_state()
                    == ConverterState::Failed && final(self).spec_buffer() == old(self).spec_buffer(),
                Ok(next) => if image.width != old(self).spec_width() || image.height != old(self).spec_height() {
                    r == Err::<(), ConvertError>(ConvertError::DimensionMismatch) && final(self).spec_state()
                        == ConverterState::Failed && final(self).spec_buffer() == old(self).spec_buffer()
                } else if image.width % 2 != 0 || image.height % 2 != 0 {
                    r == Err::<(), ConvertError>(ConvertError::EncodeFailure) && final(self).spec_state()
                        == ConverterState::Failed && final(self).spec_buffer() == old(self).spec_buffer()
                } else {
                    match r {
                        Ok(_) => final(self).spec_state() == next && exists|bits: Seq<u8>|
                            final(self).spec_buffer() == #[trigger] (old(self).spec_buffer() + bits),
                        Err(e) => e == ConvertError::EncodeFailure && final(self).spec_state()
                            == ConverterState::Failed && final(self).spec_buffer() == old(self).spec_buffer(),
                    }
                },
            },
    {
        let next = match step(self.state, Operation::ConvertFrame) {
            Err(e) => {
                self.state = ConverterState::Failed;
                return Err(e);
            },
            Ok(n) => n,
        };
        if image.width != self.width || image.height != self.height {
            self.state = ConverterState::Failed;
            return Err(ConvertError::DimensionMismatch);
        }
        if image.width % 2 != 0 || image.height % 2 != 0 {
            self.state = ConverterState::Failed;
            return Err(ConvertError::EncodeFailure);
        }
        let encoded = match &mut self.encoder {
            Some(encoder) => encode_h264(encoder, image.width, image.height, &image.pixels),
            None => {
                self.state = ConverterState::Failed;
                return Err(ConvertError::EncodeFailure);
            },
        };
        match encoded {
            Err(_) => {
                self.state = ConverterState::Failed;
                Err(ConvertError::EncodeFailure)
            },
            Ok(bits) => {
                self.append(&bits);
                self.state = next;
                assert(self.spec_buffer() == old(self).spec_buffer() + bits@);
                Ok(())
            },
        }
    }

    fn append(&mut self, bitstream: &Vec<u8>)
        ensures
            final(self).buffer@ == old(self).buffer@ + bitstream@,
            final(self).state == old(self).state,
            final(self).path@ == old(self).path@,
            final(self).encoder == old(self).encoder,
            final(self).width == old(self).width,
            final(self).height == old(self).height,
            final(self).fps == old(self).fps,
    {
        let ghost start = self.buffer@;
        let n = bitstream.len();
        let mut i: usize = 0;
        while i < n
            invariant
                n == bitstream@.len(),
                i <= n,
                self.buffer@ == start + bitstream@.subrange(0, i as int),
                self.state == old(self).state,
                self.path@ == old(self).path@,
                self.encoder == old(self).encoder,
                self.width == old(self).width,
                self.height == old(self).height,
                self.fps == old(self).fps,
            decreases n - i,
        {
            self.buffer.push(bitstream[i]);
            i += 1;
            assert(self.buffer@ =~= start + bitstream@.subrange(0, i as int));
        }
        assert(bitstream@.subrange(0, n as int) =~= bitstream@);
    }

    /// Ends the job; the caller then muxes `buffer()` into the output file.
    pub fn finish(&mut self) -> (r: Result<(), ConvertError>)
        requires
            old(self).wf(),
        ensures
            final(self).wf(),
            final(self).spec_state() == state_after(old(self).spec_state(), Operation::Finish),
            final(self).spec_path() == old(self).spec_path(),
            final(self).spec_buffer() == old(self).spec_buffer(),
            final(self).spec_width() == old(self).spec_width(),
            final(self).spec_height() == old(self).spec_height(),
            final(self).spec_fps() == old(self).spec_fps(),
            r == match transition(old(self).spec_state(), Operation::Finish) {
                Err(e) => Err::<(), ConvertError>(e),
                Ok(_) => Ok(()),
            },
    {
        match step(self.state, Operation::Finish) {
            Err(e) => {
                self.state = ConverterState::Failed;
                Err(e)
            },
            Ok(next) => {
                self.state = next;
                Ok(())
            },
        }
    }

    /// Records that muxing or writing the file failed.
    pub fn record_io_failure(&mut self) -> (r: ConvertError)
        ensures
            final(self).wf(),
            r == ConvertError::IoFailure,
            final(self).spec_state() == ConverterState::Failed,
            final(self).spec_path() == old(self).spec_path(),
    {
        self.state = ConverterState::Failed;
        ConvertError::IoFailure
    }
}

} // verus!
