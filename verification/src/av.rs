//! Capture and asset-reading outputs, modelled as the plain state their
//! accessors read.

use vstd::prelude::*;

pub mod asset;
pub mod capture;

pub use capture::video_data_output::VideoDataOutput;
pub use capture::video_data_output::VideoDataOutputSampleBufDelegate;

verus! {

/// The medium of a track: audio, video and kin, named by their documented
/// strings.
#[derive(Debug, PartialEq)]
pub struct MediaType(pub std::string::String);

/// A codec a capture output can encode with, named by its documented
/// string.
#[derive(Debug, PartialEq)]
pub struct VideoCodec(pub std::string::String);

/// An output of a capture session.
#[derive(Clone, Copy, Debug, PartialEq, Eq, Structural)]
pub struct CaptureOutput {
    pub id: u64,
}

/// One route from a capture input to an output.
#[derive(Clone, Copy, Debug, PartialEq, Eq, Structural)]
pub struct CaptureConnection {
    pub id: u64,
}

} // verus!
