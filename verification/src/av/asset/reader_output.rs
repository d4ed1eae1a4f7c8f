//! Reader outputs: where a client reads one track's samples from, with the
//! documented defaults and the settings-validity rule stated exactly.

use vstd::prelude::*;

use crate::av::asset::Track;
use crate::ns::{Dictionary, Exception, Number, Value, Array};

verus! {

/// Reads one collection of samples of a common media type from an asset
/// reader.
pub struct ReaderOutput {
    pub media_type: std::string::String,
    pub always_copies_sample_data: bool,
    pub supports_random_access: bool,
}

impl ReaderOutput {
    /// The medium of the samples this output vends.
    pub fn media_type(&self) -> (r: std::string::String)
        ensures
            r == self.media_type,
    {
        self.media_type.clone()
    }

    /// Whether vended buffers are always copies the client may modify.
    /// True unless turned off.
    pub fn always_copies_sample_data(&self) -> (r: bool)
        ensures
            r == self.always_copies_sample_data,
    {
        self.always_copies_sample_data
    }

    pub fn set_always_copies_sample_data(&mut self, value: bool)
        ensures
            *final(self) == (ReaderOutput { always_copies_sample_data: value, ..*old(self) }),
    {
        self.always_copies_sample_data = value;
    }

    /// Whether the client may reset reading to new time ranges.
    pub fn supports_random_access(&self) -> (r: bool)
        ensures
            r == self.supports_random_access,
    {
        self.supports_random_access
    }
}

/// Whether output settings can be used with a track: none asks for the
/// track's stored format, which every track supports.
pub open spec fn settings_usable(settings: Option<&Dictionary<std::string::String, Number>>) -> bool {
    settings is None
}

/// Reads one track, vending samples in the stored format or per output
/// settings.
pub struct ReaderTrackOutput {
    pub output: ReaderOutput,
    pub pending_range_count: usize,
}

impl ReaderTrackOutput {
    /// An output reading the given track.  Settings that cannot be used
    /// with the track are refused by the native initializer before any
    /// output exists, so they are refused here by precondition.
    pub fn with_track_throws(
        track: &Track,
        output_settings: Option<&Dictionary<std::string::String, Number>>,
    ) -> (r: ReaderTrackOutput)
        requires
            settings_usable(output_settings),
        ensures
            r.output.media_type == track.media_type,
            r.output.always_copies_sample_data == true,
            r.output.supports_random_access == false,
            r.pending_range_count == 0,
    {
        let _ = output_settings;
        ReaderTrackOutput {
            output: ReaderOutput {
                media_type: track.media_type.clone(),
                always_copies_sample_data: true,
                supports_random_access: false,
            },
            pending_range_count: 0,
        }
    }

    /// An output reading the given track, with unusable settings reported
    /// as the caught exception instead of thrown.
    pub fn with_track(
        track: &Track,
        output_settings: Option<&Dictionary<std::string::String, Number>>,
    ) -> (r: Result<ReaderTrackOutput, Exception>)
        ensures
            settings_usable(output_settings) <==> r is Ok,
            r matches Ok(o) ==> o.output.media_type == track.media_type
                && o.output.always_copies_sample_data == true
                && o.output.supports_random_access == false && o.pending_range_count == 0,
    {
        match output_settings {
            None => Ok(Self::with_track_throws(track, None)),
            Some(_) => Err(
                Exception { name: std::string::String::new() },
            ),
        }
    }

    /// Restarts reading over the given time ranges; only an output that
    /// supports random access may be reset.
    pub fn reset_for_reading_time_ranges(&mut self, ranges: &Array<Value>)
        requires
            old(self).output.supports_random_access,
        ensures
            final(self).output == old(self).output,
            final(self).pending_range_count == ranges@.len(),
    {
        self.pending_range_count = ranges.len();
    }
}

} // verus!
