//! Assets and their tracks.

use vstd::prelude::*;

pub mod reader_output;

pub use reader_output::ReaderOutput;
pub use reader_output::ReaderTrackOutput;

verus! {

/// One track of an asset: a single collection of samples of one medium.
#[derive(Debug, PartialEq)]
pub struct Track {
    pub media_type: std::string::String,
}

} // verus!
