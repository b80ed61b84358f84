use vstd::prelude::*;
use crate::color::RgbaFrame;
use crate::converter::{ConverterState, Operation, step, transition, state_after};
use crate::error::ConvertError;
use crate::rational::{FrameRate, fps_to_rational, rational_of};
use crate::text::{decimal, push_all, push_decimal};
use vstd::string::StringSliceAdditionalSpecFns;

verus! {

/// `<width>x<height>`.
pub open spec fn size_arg(width: u32, height: u32) -> Seq<u8> {
    decimal(width as nat) + "x".spec_bytes() + decimal(height as nat)
}

/// The frame rate as the reduced fraction `<num>/<den>`.
pub open spec fn rate_arg(rate: FrameRate) -> Seq<u8> {
    decimal(rational_of(rate).0 as nat) + "/".spec_bytes() + decimal(rational_of(rate).1 as nat)
}

/// The encoder's arguments before the output path: raw RGBA frames of the
/// given size and rate on standard input, H.264 in YUV 4:2:0 out.
pub open spec fn encoder_args(width: u32, height: u32, rate: FrameRate) -> Seq<Seq<u8>> {
    seq![
        "-y".spec_bytes(),
        "-f".spec_bytes(),
        "rawvideo".spec_bytes(),
        "-pix_fmt".spec_bytes(),
        "rgba".spec_bytes(),
        "-s".spec_bytes(),
        size_arg(width, height),
        "-r".spec_bytes(),
        rate_arg(rate),
        "-i".spec_bytes(),
        "-".spec_bytes(),
        "-c:v".spec_bytes(),
        "libx264".spec_bytes(),
        "-pix_fmt".spec_bytes(),
        "yuv420p".spec_bytes(),
        "-profile:v".spec_bytes(),
        "main".spec_bytes(),
        "-crf".spec_bytes(),
        "18".spec_bytes(),
    ]
}

fn literal_arg(s: &str) -> (r: Vec<u8>)
    ensures
        r@ == s.spec_bytes(),
{
    let mut out: Vec<u8> = Vec::new();
    push_all(&mut out, s.as_bytes());
    assert(out@ =~= s.spec_bytes());
    out
}

/// Builds the encoder's arguments; the output path follows them.
pub fn encoder_arguments(width: u32, height: u32, rate: FrameRate) -> (r: Vec<Vec<u8>>)
    ensures
        r@.map_values(|a: Vec<u8>| a@) == encoder_args(width, height, rate),
{
    let mut size: Vec<u8> = Vec::new();
    push_decimal(&mut size, width as u64);
    push_all(&mut size, "x".as_bytes());
    push_decimal(&mut size, height as u64);
    let (num, den) = fps_to_rational(rate);
    let mut fps: Vec<u8> = Vec::new();
    push_decimal(&mut fps, num as u64);
    push_all(&mut fps, "/".as_bytes());
    push_decimal(&mut fps, den as u64);
    proof {
        assert(size@ =~= size_arg(width, height));
        assert(fps@ =~= rate_arg(rate));
    }
    let mut args: Vec<Vec<u8>> = Vec::new();
    args.push(literal_arg("-y"));
    args.push(literal_arg("-f"));
    args.push(literal_arg("rawvideo"));
    args.push(literal_arg("-pix_fmt"));
    args.push(literal_arg("rgba"));
    args.push(literal_arg("-s"));
    args.push(size);
    args.push(literal_arg("-r"));
    args.push(fps);
    args.push(literal_arg("-i"));
    args.push(literal_arg("-"));
    args.push(literal_arg("-c:v"));
    args.push(literal_arg("libx264"));
    args.push(literal_arg("-pix_fmt"));
    args.push(literal_arg("yuv420p"));
    args.push(literal_arg("-profile:v"));
    args.push(literal_arg("main"));
    args.push(literal_arg("-crf"));
    args.push(literal_arg("18"));
    assert(args@.map_values(|a: Vec<u8>| a@) =~= encoder_args(width, height, rate));
    args
}

/// What became of locating and starting the external encoder.
#[derive(Debug, Clone, Copy, PartialEq, Eq, Structural)]
pub enum SpawnOutcome {
    ToolNotFound,
    SpawnFailed,
    Running,
}

/// The steps that end the encoder process, in the order they must be taken.
#[derive(Debug, Clone, Copy, PartialEq, Eq, Structural)]
pub enum FinishStep {
    /// Flush and close the write side of the encoder's input pipe.
    CloseInput,
    /// Wait for the encoder to exit and report its exit code.
    WaitForExit,
}

/// The outcome of the encoder's exit: success only on exit code 0.
pub open spec fn exit_result(code: Option<i32>) -> Result<(), ConvertError> {
    if code == Some(0i32) {
        Ok(())
    } else {
        Err(ConvertError::ChildProcessExitFailure(code))
    }
}

/// Pipes raw RGBA frames into an external encoder process. The converter
/// decides; the caller spawns the process, writes the frames and reports
/// back.
pub struct FfmepgConverter {
    path: String,
    width: u32,
    height: u32,
    state: ConverterState,
}

impl FfmepgConverter {
    pub closed spec fn spec_state(&self) -> ConverterState {
        self.state
    }

    pub closed spec fn spec_path(&self) -> Seq<char> {
        self.path@
    }

    pub closed spec fn spec_width(&self) -> u32 {
        self.width
    }

    pub closed spec fn spec_height(&self) -> u32 {
        self.height
    }

    pub fn new(path: &str) -> (r: Self)
        ensures
            r.spec_state() == ConverterState::Uninitialized,
            r.spec_path() == path@,
    {
        FfmepgConverter { path: path.to_owned(), width: 0, height: 0, state: ConverterState::Uninitialized }
    }

    pub fn path(&self) -> (r: &str)
        ensures
            r@ == self.spec_path(),
    {
        self.path.as_str()
    }

    pub fn state(&self) -> (r: ConverterState)
        ensures
            r == self.spec_state(),
    {
        self.state
    }

    /// Starts the job for frames of `width` by `height`, given what became of
    /// starting the encoder for that size.
    pub fn prepare(&mut self, width: u32, height: u32, outcome: SpawnOutcome) -> (r: Result<
        (),
        ConvertError,
    >)
        ensures
            final(self).spec_path() == old(self).spec_path(),
            match transition(old(self).spec_state(), Operation::Prepare) {
                Err(e) => r == Err::<(), ConvertError>(e) && final(self).spec_state()
                    == ConverterState::Failed,
                Ok(next) => match outcome {
                    SpawnOutcome::ToolNotFound => r == Err::<(), ConvertError>(
                        ConvertError::ToolingNotFound,
                    ) && final(self).spec_state() == ConverterState::Failed,
                    SpawnOutcome::SpawnFailed => r == Err::<(), ConvertError>(
                        ConvertError::SpawnFailure,
                    ) && final(self).spec_state() == ConverterState::Failed,
                    SpawnOutcome::Running => r == Ok::<(), ConvertError>(()) && final(self).spec_state() == next && final(self).spec_width() == width && final(self).spec_height() == height,
                },
            },
    {
        let next = match step(self.state, Operation::Prepare) {
            Err(e) => {
                self.state = ConverterState::Failed;
                return Err(e);
            },
            Ok(n) => n,
        };
        match outcome {
            SpawnOutcome::ToolNotFound => {
                self.state = ConverterState::Failed;
                Err(ConvertError::ToolingNotFound)
            },
            SpawnOutcome::SpawnFailed => {
                self.state = ConverterState::Failed;
                Err(ConvertError::SpawnFailure)
            },
            SpawnOutcome::Running => {
                self.width = width;
                self.height = height;
                self.state = next;
                Ok(())
            },
        }
    }

    /// Accepts a frame of the prepared size; the caller then writes its raw
    /// pixels to the encoder's input.
    pub fn convert_frame(&mut self, image: &RgbaFrame, _frame_id: u32) -> (r: Result<
        (),
        ConvertError,
    >)
        ensures
            final(self).spec_path() == old(self).spec_path(),
            final(self).spec_width() == old(self).spec_width(),
            final(self).spec_height() == old(self).spec_height(),
            match transition(old(self).spec_state(), Operation::ConvertFrame) {
                Err(e) => r == Err::<(), ConvertError>(e) && final(self).spec_state()
                    == ConverterState::Failed,
                Ok(next) => if image.width != old(self).spec_width() || image.height != old(self).spec_height() {
                    r == Err::<(), ConvertError>(ConvertError::DimensionMismatch) && final(self).spec_state() == ConverterState::Failed
                } else {
                    r == Ok::<(), ConvertError>(()) && final(self).spec_state() == next
                },
            },
    {
        let next = match step(self.state, Operation::ConvertFrame) {
            Err(e) => {
                self.state = ConverterState::Failed;
                return Err(e);
            },
            Ok(n) => n,
        };
        if image.width != self.width || image.height != self.height {
            self.state = ConverterState::Failed;
            return Err(ConvertError::DimensionMismatch);
        }
        self.state = next;
        Ok(())
    }

    /// Ends the input: returns the steps to take, closing the pipe strictly
    /// before waiting for the process.
    pub fn finish(&mut self) -> (r: Result<Vec<FinishStep>, ConvertError>)
        ensures
            final(self).spec_path() == old(self).spec_path(),
            final(self).spec_state() == state_after(old(self).spec_state(), Operation::Finish),
            match transition(old(self).spec_state(), Operation::Finish) {
                Err(e) => r == Err::<Vec<FinishStep>, ConvertError>(e),
                Ok(_) => r is Ok && r->Ok_0@ == seq![FinishStep::CloseInput, FinishStep::WaitForExit],
            },
    {
        match step(self.state, Operation::Finish) {
            Err(e) => {
                self.state = ConverterState::Failed;
                Err(e)
            },
            Ok(next) => {
                self.state = next;
                let mut steps: Vec<FinishStep> = Vec::new();
                steps.push(FinishStep::CloseInput);
                steps.push(FinishStep::WaitForExit);
                assert(steps@ =~= seq![FinishStep::CloseInput, FinishStep::WaitForExit]);
                Ok(steps)
            },
        }
    }

    /// Judges the encoder's exit once `finish` has been accepted: exit code 0
    /// succeeds, any other code (or none) fails with that code.
    pub fn child_exited(&mut self, code: Option<i32>) -> (r: Result<(), ConvertError>)
        ensures
            final(self).spec_path() == old(self).spec_path(),
            old(self).spec_state() != ConverterState::Finished ==> r == Err::<(), ConvertError>(
                ConvertError::InvalidState,
            ) && final(self).spec_state() == ConverterState::Failed,
            old(self).spec_state() == ConverterState::Finished ==> r == exit_result(code)
                && final(self).spec_state() == if r is Ok {
                ConverterState::Finished
            } else {
                ConverterState::Failed
            },
    {
        if self.state != ConverterState::Finished {
            self.state = ConverterState::Failed;
            return Err(ConvertError::InvalidState);
        }
        match code {
            Some(c) => if c == 0 {
                Ok(())
            } else {
                self.state = ConverterState::Failed;
                Err(ConvertError::ChildProcessExitFailure(code))
            },
            None => {
                self.state = ConverterState::Failed;
                Err(ConvertError::ChildProcessExitFailure(code))
            },
        }
    }

    /// Records that writing to or closing the encoder's input failed.
    pub fn record_io_failure(&mut self) -> (r: ConvertError)
        ensures
            r == ConvertError::IoFailure,
            final(self).spec_state() == ConverterState::Failed,
            final(self).spec_path() == old(self).spec_path(),
    {
        self.state = ConverterState::Failed;
        ConvertError::IoFailure
    }
}

/// A non-zero exit code surfaces as `ChildProcessExitFailure` carrying that
/// exact code.
pub proof fn lemma_exit_code_surfaces(code: i32)
    requires
        code != 0,
    ensures
        exit_result(Some(code)) == Err::<(), ConvertError>(
            ConvertError::ChildProcessExitFailure(Some(code)),
        ),
{
}

} // verus!
