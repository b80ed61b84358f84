//! Extraction of the video stream embedded in an OMV container, conversion of
//! decoded planar frames to RGBA, and the output converters that consume them.
pub mod error;
pub mod header;
pub mod locate;
pub mod rational;
pub mod color;
pub mod text;
pub mod converter;
pub mod encode;
pub mod piped;
pub mod sequence;
pub mod source;
pub mod ffmpeg;
pub mod h264;
pub mod decode;
