//! Mirrors of the audio toolbox value structs that the object plane hands
//! around: buffer lists and stream descriptions, held as plain integers.

use vstd::prelude::*;

verus! {

/// One buffer of interleaved audio: a channel count and a byte size.  In a
/// stream configuration the byte size is zero and only the channel count
/// speaks.
#[derive(Clone, Copy, Debug, PartialEq, Eq, Structural)]
pub struct AudioBuf {
    pub number_channels: u32,
    pub data_byte_size: u32,
}

/// A list of audio buffers, one per stream.
#[derive(Clone, Debug, PartialEq, Eq)]
pub struct AudioBufList {
    pub buffers: Vec<AudioBuf>,
}

impl AudioBufList {
    /// The number of streams described.
    pub fn number_buffers(&self) -> (r: usize)
        ensures
            r == self.buffers@.len(),
    {
        self.buffers.len()
    }

}

/// A moment on the audio timelines: the sample position as a whole
/// number, the host clock, and which fields speak.  The reserved word pads
/// the struct in the native layout and must stay zero.
#[derive(Clone, Copy, Debug, PartialEq, Eq, Structural)]
pub struct AudioTimeStamp {
    pub sample_time: i64,
    pub host_time: u64,
    pub word_clock_time: u64,
    pub flags: u32,
    pub reserved: u32,
}

impl AudioTimeStamp {
    /// A timestamp is well formed when its reserved padding is zero.
    pub open spec fn wf(self) -> bool {
        self.reserved == 0
    }
}

/// The layout of one stream of audio data: rates and sizes as the plane
/// reports them.  The sample rate is held in whole hertz.  The reserved
/// word pads the struct in the native layout and must stay zero.
#[derive(Clone, Copy, Debug, PartialEq, Eq, Structural)]
pub struct AudioBasicStreamDesc {
    pub sample_rate: u32,
    pub format: u32,
    pub format_flags: u32,
    pub bytes_per_packet: u32,
    pub frames_per_packet: u32,
    pub bytes_per_frame: u32,
    pub channels_per_frame: u32,
    pub bits_per_channel: u32,
    pub reserved: u32,
}

impl AudioBasicStreamDesc {
    /// A description is well formed when its reserved padding is zero.
    pub open spec fn wf(self) -> bool {
        self.reserved == 0
    }

    /// A description of packed linear samples: one packet per frame, the
    /// byte widths computed from the channel count and sample width, and
    /// the reserved padding zero as the native layout requires.
    pub fn linear_pcm(sample_rate: u32, channels: u32, bits_per_channel: u32, flags: u32) -> (r:
        AudioBasicStreamDesc)
        requires
            channels <= 0xFFFF,
            bits_per_channel <= 0xFFFF,
            bits_per_channel % 8 == 0,
        ensures
            r.wf(),
            r.sample_rate == sample_rate,
            r.format == crate::four_cc::four_cc_chars('l', 'p', 'c', 'm'),
            r.format_flags == flags,
            r.channels_per_frame == channels,
            r.bits_per_channel == bits_per_channel,
            r.frames_per_packet == 1,
            r.bytes_per_frame == channels * (bits_per_channel / 8),
            r.bytes_per_packet == r.bytes_per_frame,
    {
        let width = bits_per_channel / 8;
        proof {
            assert(channels * width <= 0xFFFF * 0x2000) by (nonlinear_arith)
                requires
                    channels <= 0xFFFF && width <= 0x2000,
            ;
        }
        let bytes = channels * width;
        AudioBasicStreamDesc {
            sample_rate,
            format: crate::four_cc::four_cc('l' as u8, 'p' as u8, 'c' as u8, 'm' as u8),
            format_flags: flags,
            bytes_per_packet: bytes,
            frames_per_packet: 1,
            bytes_per_frame: bytes,
            channels_per_frame: channels,
            bits_per_channel,
            reserved: 0,
        }
    }
}

} // verus!
