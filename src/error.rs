use vstd::prelude::*;

verus! {

/// Every failure the library reports; no component aborts.
#[derive(Debug, PartialEq, Eq, Structural, Clone, Copy)]
pub enum ConvertError {
    /// The input holds fewer bytes than the fixed header layout.
    TruncatedHeader,
    /// The stream marker does not occur in the container.
    MissingEmbeddedStream,
    /// The decode engine refused to open the embedded stream.
    DecodeEngineOpenFailure,
    /// The decode engine found no video track.
    NoVideoStream,
    /// The decoded pixel layout is not planar 4:4:4.
    UnsupportedPixelFormat,
    /// The external encoder executable is not on the search path.
    ToolingNotFound,
    /// The external encoder process could not be started.
    SpawnFailure,
    /// A frame or `finish` reached a converter that was never prepared.
    PrepareBeforeUse,
    /// A frame's size differs from the prepared size.
    DimensionMismatch,
    /// The external encoder exited unsuccessfully; `None` when it had no exit code.
    ChildProcessExitFailure(Option<i32>),
    /// Reading or writing failed.
    IoFailure,
    /// A still-image encoder rejected the frame.
    EncodeFailure,
    /// A call reached a converter that already finished or failed.
    InvalidState,
}

} // verus!
