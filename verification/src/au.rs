//! Audio unit addressing and the plain value structs its properties carry.
//!
//! A property of an audio unit is addressed by a property identifier, a
//! scope and an element; the values are mirrored here as plain integers and
//! flags.

use vstd::prelude::*;

pub mod preset_key;

verus! {

/// The context a unit property applies to.
#[derive(Clone, Copy, Debug, PartialEq, Eq, Structural)]
pub struct Scope(pub u32);

impl Scope {
    /// Characteristics of the unit as a whole.
    pub fn global() -> (r: Scope)
        ensures
            r.0 == 0,
    {
        Scope(0)
    }

    /// Audio coming into the unit.
    pub fn input() -> (r: Scope)
        ensures
            r.0 == 1,
    {
        Scope(1)
    }

    /// Audio leaving the unit.
    pub fn output() -> (r: Scope)
        ensures
            r.0 == 2,
    {
        Scope(2)
    }

    /// The control scope of grouped parameters.
    pub fn group() -> (r: Scope)
        ensures
            r.0 == 3,
    {
        Scope(3)
    }

    /// One distinct rendering context of a multi-timbral unit.
    pub fn part() -> (r: Scope)
        ensures
            r.0 == 4,
    {
        Scope(4)
    }

    /// One started note.
    pub fn note() -> (r: Scope)
        ensures
            r.0 == 5,
    {
        Scope(5)
    }

    /// One layer within a part.
    pub fn layer() -> (r: Scope)
        ensures
            r.0 == 6,
    {
        Scope(6)
    }

    /// One item within a layer.
    pub fn layer_item() -> (r: Scope)
        ensures
            r.0 == 7,
    {
        Scope(7)
    }
}

/// Which bus of a scope a property applies to.
#[derive(Clone, Copy, Debug, PartialEq, Eq, Structural)]
pub struct Element(pub u32);

impl Element {
    /// The output bus.
    pub fn output() -> (r: Element)
        ensures
            r.0 == 0,
    {
        Element(0)
    }

    /// The input bus.
    pub fn input() -> (r: Element)
        ensures
            r.0 == 1,
    {
        Element(1)
    }
}

/// The identifier of one unit property.
#[derive(Clone, Copy, Debug, PartialEq, Eq, Structural)]
pub struct PropId(pub u32);

impl PropId {
    /// Bypasses the voice processing of the microphone uplink.
    pub fn voice_io_bypass_voice_processing() -> (r: PropId)
        ensures
            r.0 == 2100,
    {
        PropId(2100)
    }

    /// Enables automatic gain control on the processed uplink.
    pub fn voice_io_enable_agc() -> (r: PropId)
        ensures
            r.0 == 2101,
    {
        PropId(2101)
    }

    /// Mutes the output of the processed uplink.
    pub fn voice_io_mute_output() -> (r: PropId)
        ensures
            r.0 == 2104,
    {
        PropId(2104)
    }

    /// Registers a listener for speech activity while muted.
    pub fn voice_io_muted_speech_activity_event_listener() -> (r: PropId)
        ensures
            r.0 == 2106,
    {
        PropId(2106)
    }

    /// Configures the ducking of other audio.
    pub fn voice_io_other_audio_ducking_cfg() -> (r: PropId)
        ensures
            r.0 == 2108,
    {
        PropId(2108)
    }

    /// The number of equalizer bands.
    pub fn band_eq_number_of_bands() -> (r: PropId)
        ensures
            r.0 == 2200,
    {
        PropId(2200)
    }

    /// The preflight requirements of an offline unit.
    pub fn offline_preflight_requirements() -> (r: PropId)
        ensures
            r.0 == 3023,
    {
        PropId(3023)
    }

    /// The spatialisation algorithm of a mixer input.
    pub fn spatialization_algorithm() -> (r: PropId)
        ensures
            r.0 == 3000,
    {
        PropId(3000)
    }
}

/// The option bits of one unit parameter.
#[derive(Clone, Copy, Debug, PartialEq, Eq, Structural)]
pub struct ParamFlags(pub u32);

impl ParamFlags {
    /// The parameter can be ramped.
    pub fn can_ramp() -> (r: ParamFlags)
        ensures
            r.0 == 0x200_0000,
    {
        ParamFlags(0x200_0000)
    }

    /// Changing the parameter in real time glitches.
    pub fn non_real_time() -> (r: ParamFlags)
        ensures
            r.0 == 0x100_0000,
    {
        ParamFlags(0x100_0000)
    }

    /// The parameter is only for expert surfaces.
    pub fn expert_mode() -> (r: ParamFlags)
        ensures
            r.0 == 0x400_0000,
    {
        ParamFlags(0x400_0000)
    }

    /// The parameter can be read.
    pub fn is_readable() -> (r: ParamFlags)
        ensures
            r.0 == 0x4000_0000,
    {
        ParamFlags(0x4000_0000)
    }

    /// Whether every bit of `other` stands in this set.
    pub fn contains(&self, other: ParamFlags) -> (r: bool)
        ensures
            r == (self.0 & other.0 == other.0),
    {
        self.0 & other.0 == other.0
    }

    /// The union of two flag sets.
    pub fn with(&self, other: ParamFlags) -> (r: ParamFlags)
        ensures
            r.0 == self.0 | other.0,
    {
        ParamFlags(self.0 | other.0)
    }
}

/// What a parameter's value means.
#[derive(Clone, Copy, Debug, PartialEq, Eq, Structural)]
pub enum ParamUnit {
    Generic,
    Indexed,
    Boolean,
    Percent,
    Seconds,
    SampleFrames,
    Phase,
    Rate,
    Hertz,
    Cents,
    RelativeSemiTones,
    MidiNoteNumber,
    MidiController,
    Decibels,
    LinearGain,
    Degrees,
    EqualPowerCrossfade,
    MixerFaderCurve1,
    Pan,
    Meters,
    AbsoluteCents,
    Octaves,
    Bpm,
    Beats,
    Milliseconds,
    Ratio,
    CustomUnit,
    Midi2Controller,
}

/// Whether an offline unit must be preflighted before rendering.
#[derive(Clone, Copy, Debug, PartialEq, Eq, Structural)]
pub enum OfflinePreflight {
    NotRequired,
    Optional,
    Required,
}

/// When to start an output unit: at a timestamp, with option flags.
#[derive(Clone, Copy, Debug, PartialEq, Eq, Structural)]
pub struct StartAtTimeParams {
    pub timestamp: crate::cat::AudioTimeStamp,
    pub flags: u32,
}

/// Speech starting or ending while the uplink is muted.
#[derive(Clone, Copy, Debug, PartialEq, Eq, Structural)]
pub enum VoiceIoSpeechActivityEvent {
    Started,
    Ended,
}

/// How strongly other audio is ducked under voice.
#[derive(Clone, Copy, Debug, PartialEq, Eq, Structural)]
pub struct VoiceIoOtherAudioDuckingCfg {
    pub enable_advanced_ducking: bool,
    pub ducking_level: u32,
}

/// The documented ducking levels of [`VoiceIoOtherAudioDuckingCfg`].
pub const DUCKING_LEVEL_DEFAULT: u32 = 0;

pub const DUCKING_LEVEL_MIN: u32 = 10;

pub const DUCKING_LEVEL_MID: u32 = 20;

pub const DUCKING_LEVEL_MAX: u32 = 30;

/// How a mixer input is placed in space.
#[derive(Clone, Copy, Debug, PartialEq, Eq, Structural)]
pub enum SpatializationAlgorithm {
    EqualPowerPanning,
    SphericalHead,
    Hrtf,
    SoundField,
    VectorBasedPanning,
    StereoPassThrough,
    HrtfHq,
    UseOutputType,
}

/// A connection between two units: the source unit's handle, its output
/// bus and the destination's input bus.
#[derive(Clone, Copy, Debug, PartialEq, Eq, Structural)]
pub struct Connection {
    pub src_au: u32,
    pub src_output_num: u32,
    pub dst_input_num: u32,
}

/// How many input and output channels a unit can handle; minus one means
/// any number.
#[derive(Clone, Copy, Debug, PartialEq, Eq, Structural)]
pub struct ChannelInfo {
    pub in_channels: i16,
    pub out_channels: i16,
}

/// Memory a host lends a unit for its input callback: the byte size of the
/// lent buffer.
#[derive(Clone, Copy, Debug, PartialEq, Eq, Structural)]
pub struct ExternalBuf {
    pub size: u32,
}

/// One entry of a unit's preset list: its number and name.
#[derive(Debug, PartialEq)]
pub struct Preset {
    pub number: i32,
    pub name: Option<std::string::String>,
}

/// The flag bits of one scheduled audio slice.
#[derive(Clone, Copy, Debug, PartialEq, Eq, Structural)]
pub struct ScheduledSliceFlags(pub u32);

impl ScheduledSliceFlags {
    /// The unit is done with the slice.
    pub fn complete() -> (r: ScheduledSliceFlags)
        ensures
            r.0 == 0x01,
    {
        ScheduledSliceFlags(0x01)
    }

    /// Some of the slice has been played.
    pub fn began_to_render() -> (r: ScheduledSliceFlags)
        ensures
            r.0 == 0x02,
    {
        ScheduledSliceFlags(0x02)
    }

    /// Some of the slice was dropped for being scheduled late.
    pub fn began_to_render_late() -> (r: ScheduledSliceFlags)
        ensures
            r.0 == 0x04,
    {
        ScheduledSliceFlags(0x04)
    }

    /// The slice loops until interrupted.
    pub fn loop_slice() -> (r: ScheduledSliceFlags)
        ensures
            r.0 == 0x08,
    {
        ScheduledSliceFlags(0x08)
    }

    /// The slice interrupts whatever plays.
    pub fn interrupt() -> (r: ScheduledSliceFlags)
        ensures
            r.0 == 0x10,
    {
        ScheduledSliceFlags(0x10)
    }

    /// The slice interrupts only at a loop point.
    pub fn interrupt_at_loop() -> (r: ScheduledSliceFlags)
        ensures
            r.0 == 0x20,
    {
        ScheduledSliceFlags(0x20)
    }
}

} // verus!
