use vstd::prelude::*;
use vstd::string::StringSliceAdditionalSpecFns;
use crate::color::RgbaFrame;
use crate::converter::{ConverterState, Operation, step, transition, state_after};
use crate::encode::{encode_png, png_encoding};
use crate::error::ConvertError;
use crate::rational::{FrameRate, fps_to_rational, rational_of};
use crate::text::{decimal, push_all, push_decimal};

verus! {

/// The header line of the stream:
/// `PXY4M W<width> H<height> F<num>/<den> Crgba Enc:png` and a newline.
pub open spec fn header_line(width: u32, height: u32, num: u32, den: u32) -> Seq<u8> {
    "PXY4M W".spec_bytes() + decimal(width as nat) + " H".spec_bytes() + decimal(height as nat) + " F".spec_bytes() + decimal(num as nat)
        + "/".spec_bytes() + decimal(den as nat)
        + " Crgba Enc:png\n".spec_bytes()
}

/// The three header lines of one frame: `FRAME`, `PTS <id>` and
/// `BYTES <payload length>`.
pub open spec fn frame_prefix(frame_id: u32, payload_len: nat) -> Seq<u8> {
    "FRAME\nPTS ".spec_bytes() + decimal(frame_id as nat)
        + "\nBYTES ".spec_bytes() + decimal(payload_len) + "\n".spec_bytes()
}

/// One frame record: its header lines followed by the payload itself.
pub open spec fn frame_record(frame_id: u32, payload: Seq<u8>) -> Seq<u8> {
    frame_prefix(frame_id, payload.len()) + payload
}

/// Writes the header line.
pub fn header_line_bytes(width: u32, height: u32, num: u32, den: u32) -> (r: Vec<u8>)
    ensures
        r@ == header_line(width, height, num, den),
{
    let mut out: Vec<u8> = Vec::new();
    push_all(&mut out, "PXY4M W".as_bytes());
    push_decimal(&mut out, width as u64);
    push_all(&mut out, " H".as_bytes());
    push_decimal(&mut out, height as u64);
    push_all(&mut out, " F".as_bytes());
    push_decimal(&mut out, num as u64);
    push_all(&mut out, "/".as_bytes());
    push_decimal(&mut out, den as u64);
    push_all(&mut out, " Crgba Enc:png\n".as_bytes());
    proof {
        reveal_strlit("PXY4M W");
        reveal_strlit(" H");
        reveal_strlit(" F");
        reveal_strlit("/");
        reveal_strlit(" Crgba Enc:png\n");
        assert(out@ =~= header_line(width, height, num, den));
    }
    out
}

/// Frames one payload: the `FRAME`, `PTS` and `BYTES` lines, then the
/// payload's bytes.
pub fn frame_record_bytes(frame_id: u32, payload: &Vec<u8>) -> (r: Vec<u8>)
    ensures
        r@ == frame_record(frame_id, payload@),
{
    let mut out: Vec<u8> = Vec::new();
    push_all(&mut out, "FRAME\nPTS ".as_bytes());
    push_decimal(&mut out, frame_id as u64);
    push_all(&mut out, "\nBYTES ".as_bytes());
    push_decimal(&mut out, payload.len() as u64);
    push_all(&mut out, "\n".as_bytes());
    push_all(&mut out, payload.as_slice());
    proof {
        reveal_strlit("FRAME\nPTS ");
        reveal_strlit("\nBYTES ");
        reveal_strlit("\n");
        assert(out@ =~= frame_record(frame_id, payload@));
    }
    out
}

/// A frame record is its prefix and then exactly the payload, and the number
/// the prefix gives after `BYTES ` is the payload's length.
pub proof fn lemma_record_announces_payload_length(frame_id: u32, payload: Seq<u8>)
    ensures
        frame_record(frame_id, payload) == frame_prefix(frame_id, payload.len()) + payload,
        frame_record(frame_id, payload).len() - frame_prefix(frame_id, payload.len()).len()
            == payload.len(),
        frame_prefix(frame_id, payload.len()).subrange(
            frame_prefix(frame_id, payload.len()).len() - decimal(payload.len()).len() - 1,
            frame_prefix(frame_id, payload.len()).len() - 1,
        ) == decimal(payload.len()),
{
    let p = frame_prefix(frame_id, payload.len());
    let d = decimal(payload.len());
    reveal_strlit("\n");
    vstd::string::is_ascii_spec_bytes("\n");
    assert(p.subrange(p.len() - d.len() - 1, p.len() - 1) =~= d);
}

/// Only the header line opens with `P`; every frame record opens with `F`,
/// so no frame record ever repeats the header.
pub proof fn lemma_frame_record_is_not_header(
    frame_id: u32,
    payload: Seq<u8>,
    width: u32,
    height: u32,
    num: u32,
    den: u32,
)
    ensures
        frame_record(frame_id, payload).len() > 0,
        header_line(width, height, num, den).len() > 0,
        frame_record(frame_id, payload)[0] == 70u8,
        header_line(width, height, num, den)[0] == 80u8,
{
    reveal_strlit("FRAME\nPTS ");
    reveal_strlit("PXY4M W");
    vstd::string::is_ascii_spec_bytes("FRAME\nPTS ");
    vstd::string::is_ascii_spec_bytes("PXY4M W");
    let f = "FRAME\nPTS ".spec_bytes();
    let h = "PXY4M W".spec_bytes();
    assert(f[0] == 70u8);
    assert(h[0] == 80u8);
    assert(frame_prefix(frame_id, payload.len())[0] == f[0]);
    assert(frame_record(frame_id, payload)[0] == f[0]);
    assert(header_line(width, height, num, den)[0] == h[0]);
}

/// The header line is emitted once: after it has been handed out, every later
/// `prepare` is refused, and what a frame call returns is a frame record,
/// which opens with `F` where the header line opens with `P`.
pub proof fn lemma_header_emitted_once(
    c: PipedPngConverter,
    frame_id: u32,
    payload: Seq<u8>,
    num: u32,
    den: u32,
)
    requires
        c.wf(),
        c.spec_header_written(),
    ensures
        transition(c.spec_state(), Operation::Prepare) is Err,
        frame_record(frame_id, payload)[0] != header_line(
            c.spec_width(),
            c.spec_height(),
            num,
            den,
        )[0],
{
    lemma_frame_record_is_not_header(frame_id, payload, c.spec_width(), c.spec_height(), num, den);
}

/// Streams each frame to standard output as a PNG behind a short text header.
/// The converter computes the bytes; the caller writes and flushes them.
pub struct PipedPngConverter {
    rate: FrameRate,
    width: u32,
    height: u32,
    header_written: bool,
    state: ConverterState,
}

impl PipedPngConverter {
    pub closed spec fn spec_state(&self) -> ConverterState {
        self.state
    }

    pub closed spec fn spec_width(&self) -> u32 {
        self.width
    }

    pub closed spec fn spec_height(&self) -> u32 {
        self.height
    }

    pub closed spec fn spec_rate(&self) -> FrameRate {
        self.rate
    }

    /// The header line has been handed out.
    pub closed spec fn spec_header_written(&self) -> bool {
        self.header_written
    }

    /// The header is handed out only by a `prepare` that left the
    /// uninitialised state.
    pub closed spec fn wf(&self) -> bool {
        self.header_written ==> self.state != ConverterState::Uninitialized
    }

    /// A fresh converter; the output path is not used, frames go to
    /// standard output.
    pub fn new(_dummy_out: &str) -> (r: Self)
        ensures
            r.spec_state() == ConverterState::Uninitialized,
            !r.spec_header_written(),
            r.wf(),
    {
        PipedPngConverter {
            rate: FrameRate::Whole(0),
            width: 0,
            height: 0,
            header_written: false,
            state: ConverterState::Uninitialized,
        }
    }

    pub fn state(&self) -> (r: ConverterState)
        ensures
            r == self.spec_state(),
    {
        self.state
    }

    /// Records the size and rate and returns the header line to write; it
    /// is handed out once only.
    pub fn prepare(&mut self, width: u32, height: u32, rate: FrameRate) -> (r: Result<
        Vec<u8>,
        ConvertError,
    >)
        requires
            old(self).wf(),
        ensures
            final(self).wf(),
            final(self).spec_state() == state_after(old(self).spec_state(), Operation::Prepare),
            match transition(old(self).spec_state(), Operation::Prepare) {
                Err(e) => r == Err::<Vec<u8>, ConvertError>(e)
                    && final(self).spec_header_written() == old(self).spec_header_written(),
                Ok(_) => r is Ok && final(self).spec_width() == width && final(self).spec_height()
                    == height && final(self).spec_rate() == rate
                    && final(self).spec_header_written() && r->Ok_0@ == if old(self).spec_header_written() {
                    Seq::<u8>::empty()
                } else {
                    header_line(width, height, rational_of(rate).0, rational_of(rate).1)
                },
            },
    {
        match step(self.state, Operation::Prepare) {
            Err(e) => {
                self.state = ConverterState::Failed;
                Err(e)
            },
            Ok(next) => {
                self.width = width;
                self.height = height;
                self.rate = rate;
                self.state = next;
                Ok(self.write_header_if_needed())
            },
        }
    }

    fn write_header_if_needed(&mut self) -> (r: Vec<u8>)
        ensures
            final(self).header_written,
            final(self).state == old(self).state,
            final(self).width == old(self).width,
            final(self).height == old(self).height,
            final(self).rate == old(self).rate,
            r@ == if old(self).header_written {
                Seq::<u8>::empty()
            } else {
                header_line(
                    old(self).width,
                    old(self).height,
                    rational_of(old(self).rate).0,
                    rational_of(old(self).rate).1,
                )
            },
    {
        if self.header_written {
            return Vec::new();
        }
        let (num, den) = fps_to_rational(self.rate);
        let line = header_line_bytes(self.width, self.height, num, den);
        self.header_written = true;
        line
    }

    /// Checks the frame's size against the prepared one and returns its
    /// record: the frame lines and the PNG encoding of the raster. Nothing is
    /// returned for a refused frame.
    pub fn convert_frame(&mut self, image: &RgbaFrame, frame_id: u32) -> (r: Result<
        Vec<u8>,
        ConvertError,
    >)
        requires
            image.wf(),
            old(self).wf(),
        ensures
            final(self).wf(),
            final(self).spec_width() == old(self).spec_width(),
            final(self).spec_height() == old(self).spec_height(),
            final(self).spec_rate() == old(self).spec_rate(),
            final(self).spec_header_written() == old(self).spec_header_written(),
            match transition(old(self).spec_state(), Operation::ConvertFrame) {
                Err(e) => r == Err::<Vec<u8>, ConvertError>(e) && final(self).spec_state()
                    == ConverterState::Failed,
                Ok(next) => if image.width != old(self).spec_width() || image.height != old(self).spec_height() {
                    r == Err::<Vec<u8>, ConvertError>(ConvertError::DimensionMismatch)
                        && final(self).spec_state() == ConverterState::Failed
                } else {
                    match r {
                        Ok(bytes) => bytes@ == frame_record(
                            frame_id,
                            png_encoding(image.width, image.height, image.pixels@),
                        ) && final(self).spec_state() == next,
                        Err(e) => e == ConvertError::EncodeFailure && final(self).spec_state()
                            == ConverterState::Failed,
                    }
                },
            },
            transition(old(self).spec_state(), Operation::ConvertFrame) is Ok && image.width
                == old(self).spec_width() && image.height == old(self).spec_height() && image.width
                > 0 && image.height > 0 ==> r is Ok,
    {
        let next = match step(self.state, Operation::ConvertFrame) {
            Err(e) => {
                self.state = ConverterState::Failed;
                return Err(e);
            },
            Ok(n) => n,
        };
        if image.width != self.width || image.height != self.height {
            self.state = ConverterState::Failed;
            return Err(ConvertError::DimensionMismatch);
        }
        match encode_png(image.width, image.height, &image.pixels) {
            Err(_) => {
                self.state = ConverterState::Failed;
                Err(ConvertError::EncodeFailure)
            },
            Ok(png) => {
                self.state = next;
                Ok(frame_record_bytes(frame_id, &png))
            },
        }
    }

    /// Ends the stream; the caller flushes standard output.
    pub fn finish(&mut self) -> (r: Result<(), ConvertError>)
        requires
            old(self).wf(),
        ensures
            final(self).wf(),
            final(self).spec_state() == state_after(old(self).spec_state(), Operation::Finish),
            match transition(old(self).spec_state(), Operation::Finish) {
                Err(e) => r == Err::<(), ConvertError>(e),
                Ok(_) => r is Ok,
            },
            final(self).spec_header_written() == old(self).spec_header_written(),
    {
        match step(self.state, Operation::Finish) {
            Err(e) => {
                self.state = ConverterState::Failed;
                Err(e)
            },
            Ok(next) => {
                self.state = next;
                Ok(())
            },
        }
    }
}

} // verus!
