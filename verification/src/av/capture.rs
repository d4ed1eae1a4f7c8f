//! Capture session outputs.

pub mod video_data_output;
