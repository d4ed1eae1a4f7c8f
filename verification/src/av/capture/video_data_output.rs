//! The video data output of a capture session: its delivery switches with
//! their documented defaults, and the delegate registration.

use vstd::prelude::*;

use crate::av::{CaptureConnection, CaptureOutput, VideoCodec};
use crate::cm::SampleBuf;
use crate::dispatch::Queue;
use crate::ns::{Array, Dictionary, Number};

verus! {

/// What a client implements to receive the output's sample buffers; the
/// session calls it on the registered queue.
pub trait VideoDataOutputSampleBufDelegate {
    /// A new sample buffer arrived.
    fn capture_output_did_output_sample_buf_from_connection(
        &mut self,
        output: &CaptureOutput,
        sample_buffer: &SampleBuf,
        connection: &CaptureConnection,
    );

    /// A sample buffer was dropped before delivery.
    fn capture_output_did_drop_sample_buf_from_connection(
        &mut self,
        output: &CaptureOutput,
        sample_buffer: &SampleBuf,
        connection: &CaptureConnection,
    );
}

/// Delivers the session's video as sample buffers.
pub struct VideoDataOutput {
    pub always_discards_late_video_frames: bool,
    pub automatically_configures_dimensions: bool,
    pub delivers_preview_sized: bool,
    pub available_pixel_formats: Array<Number>,
    pub available_codecs: Array<VideoCodec>,
    pub callback_queue: Option<Queue>,
    pub has_delegate: bool,
    pub video_settings_pairs: Option<Dictionary<std::string::String, Number>>,
}

impl VideoDataOutput {
    /// A fresh output with the documented defaults: late frames are
    /// discarded, buffer dimensions are configured automatically, buffers
    /// are full size, and nothing is registered.
    pub fn new(
        available_pixel_formats: Array<Number>,
        available_codecs: Array<VideoCodec>,
    ) -> (r: VideoDataOutput)
        ensures
            r.always_discards_late_video_frames == true,
            r.automatically_configures_dimensions == true,
            r.delivers_preview_sized == false,
            r.available_pixel_formats == available_pixel_formats,
            r.available_codecs == available_codecs,
            r.callback_queue is None,
            !r.has_delegate,
            r.video_settings_pairs is None,
    {
        VideoDataOutput {
            always_discards_late_video_frames: true,
            automatically_configures_dimensions: true,
            delivers_preview_sized: false,
            available_pixel_formats,
            available_codecs,
            callback_queue: None,
            has_delegate: false,
            video_settings_pairs: None,
        }
    }

    /// Registers or clears the delegate and the queue its methods run on.
    pub fn set_sample_buf_delegate<D: VideoDataOutputSampleBufDelegate>(
        &mut self,
        delegate: Option<&D>,
        queue: Option<&Queue>,
    )
        ensures
            final(self).has_delegate == (delegate is Some),
            final(self).callback_queue == (match queue {
                Some(q) => Some(*q),
                None => None::<Queue>,
            }),
            final(self).always_discards_late_video_frames == old(
                self,
            ).always_discards_late_video_frames,
            final(self).automatically_configures_dimensions == old(
                self,
            ).automatically_configures_dimensions,
            final(self).delivers_preview_sized == old(self).delivers_preview_sized,
            final(self).available_pixel_formats == old(self).available_pixel_formats,
            final(self).available_codecs == old(self).available_codecs,
            final(self).video_settings_pairs == old(self).video_settings_pairs,
    {
        self.has_delegate = match delegate {
            Some(_) => true,
            None => false,
        };
        self.callback_queue = match queue {
            Some(q) => Some(*q),
            None => None,
        };
    }

    /// Whether frames arriving while the delegate is busy are dropped.
    pub fn always_discard_late_video_frames(&self) -> (r: bool)
        ensures
            r == self.always_discards_late_video_frames,
    {
        self.always_discards_late_video_frames
    }

    pub fn set_always_discard_late_video_frames(&mut self, value: bool)
        ensures
            *final(self) == (VideoDataOutput {
                always_discards_late_video_frames: value,
                ..*old(self)
            }),
    {
        self.always_discards_late_video_frames = value;
    }

    /// Whether the output sizes its buffers itself.
    pub fn automatically_configures_output_buffer_dimensions(&self) -> (r: bool)
        ensures
            r == self.automatically_configures_dimensions,
    {
        self.automatically_configures_dimensions
    }

    pub fn set_automatically_configures_output_buffer_dimensions(&mut self, value: bool)
        ensures
            *final(self) == (VideoDataOutput {
                automatically_configures_dimensions: value,
                ..*old(self)
            }),
    {
        self.automatically_configures_dimensions = value;
    }

    /// Whether buffers come preview-sized rather than full size.
    pub fn delivers_preview_sized_output_buffers(&self) -> (r: bool)
        ensures
            r == self.delivers_preview_sized,
    {
        self.delivers_preview_sized
    }

    pub fn set_delivers_preview_sized_output_buffers(&mut self, value: bool)
        ensures
            *final(self) == (VideoDataOutput { delivers_preview_sized: value, ..*old(self) }),
    {
        self.delivers_preview_sized = value;
    }

    /// The pixel formats the output can be asked for.
    pub fn available_video_cv_pixel_formats(&self) -> (r: &Array<Number>)
        ensures
            *r == self.available_pixel_formats,
    {
        &self.available_pixel_formats
    }

    /// The codecs the output can be asked for.
    pub fn available_video_codecs(&self) -> (r: &Array<VideoCodec>)
        ensures
            *r == self.available_codecs,
    {
        &self.available_codecs
    }

    /// The queue the delegate's methods run on.
    pub fn sample_buffer_callback_queue(&self) -> (r: Option<&Queue>)
        ensures
            match (r, self.callback_queue) {
                (Some(a), Some(b)) => *a == b,
                (None, None) => true,
                _ => false,
            },
    {
        match &self.callback_queue {
            Some(q) => Some(q),
            None => None,
        }
    }

    /// The output's chosen video settings, when any were set.
    pub fn video_settings(&self) -> (r: Option<&Dictionary<std::string::String, Number>>)
        ensures
            match (r, &self.video_settings_pairs) {
                (Some(a), Some(b)) => a == b,
                (None, None) => true,
                _ => false,
            },
    {
        match &self.video_settings_pairs {
            Some(d) => Some(d),
            None => None,
        }
    }

    /// Settings recommended for writing the given container: the output's
    /// own settings, which this model recommends for every container.
    pub fn recommended_video_settings_for_asset_writer_with_output_file_type(
        &self,
        output_file_type: &str,
    ) -> (r: Option<&Dictionary<std::string::String, Number>>)
        ensures
            match (r, &self.video_settings_pairs) {
                (Some(a), Some(b)) => a == b,
                (None, None) => true,
                _ => false,
            },
    {
        let _ = output_file_type;
        self.video_settings()
    }

    /// Settings recommended for a codec and container: the output's own
    /// settings, which this model recommends for every pair.
    pub fn recommended_video_settings_for_video_codec_asset_writer_output_file_type(
        &self,
        codec_type: &VideoCodec,
        output_file_type: &str,
    ) -> (r: Option<&Dictionary<std::string::String, Number>>)
        ensures
            match (r, &self.video_settings_pairs) {
                (Some(a), Some(b)) => a == b,
                (None, None) => true,
                _ => false,
            },
    {
        let _ = codec_type;
        let _ = output_file_type;
        self.video_settings()
    }
}

} // verus!
