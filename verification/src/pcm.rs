//! PCM parameters of a stream and how they become the raw audio
//! description that a PipeWire stream is created with.
use crate::error::Error;
use crate::spa::{AudioChannel, AudioFormat};
use crate::virtio_sound::{
    VIRTIO_SND_PCM_FMT_MU_LAW,
    VIRTIO_SND_PCM_FMT_A_LAW,
    VIRTIO_SND_PCM_FMT_S8,
    VIRTIO_SND_PCM_FMT_U8,
    VIRTIO_SND_PCM_FMT_S16,
    VIRTIO_SND_PCM_FMT_U16,
    VIRTIO_SND_PCM_FMT_S18_3,
    VIRTIO_SND_PCM_FMT_U18_3,
    VIRTIO_SND_PCM_FMT_S20_3,
    VIRTIO_SND_PCM_FMT_U20_3,
    VIRTIO_SND_PCM_FMT_S24_3,
    VIRTIO_SND_PCM_FMT_U24_3,
    VIRTIO_SND_PCM_FMT_S20,
    VIRTIO_SND_PCM_FMT_U20,
    VIRTIO_SND_PCM_FMT_S24,
    VIRTIO_SND_PCM_FMT_U24,
    VIRTIO_SND_PCM_FMT_S32,
    VIRTIO_SND_PCM_FMT_U32,
    VIRTIO_SND_PCM_FMT_FLOAT,
    VIRTIO_SND_PCM_FMT_FLOAT64,
    VIRTIO_SND_PCM_RATE_5512,
    VIRTIO_SND_PCM_RATE_8000,
    VIRTIO_SND_PCM_RATE_11025,
    VIRTIO_SND_PCM_RATE_16000,
    VIRTIO_SND_PCM_RATE_22050,
    VIRTIO_SND_PCM_RATE_32000,
    VIRTIO_SND_PCM_RATE_44100,
    VIRTIO_SND_PCM_RATE_48000,
    VIRTIO_SND_PCM_RATE_64000,
    VIRTIO_SND_PCM_RATE_88200,
    VIRTIO_SND_PCM_RATE_96000,
    VIRTIO_SND_PCM_RATE_176400,
    VIRTIO_SND_PCM_RATE_192000,
    VIRTIO_SND_PCM_RATE_384000,
};
use vstd::prelude::*;

verus! {

/// Number of entries of a channel position table.
pub const MAX_CHANNELS: usize = 64;

/// The parameters that the guest set on a PCM stream.
#[derive(Debug)]
pub struct PCMParams {
    pub features: u32,
    /// size of hardware buffer in bytes
    pub buffer_bytes: u32,
    /// size of hardware period in bytes
    pub period_bytes: u32,
    pub channels: u8,
    pub format: u8,
    pub rate: u8,
}

impl Default for PCMParams {
    fn default() -> (r: Self)
        ensures
            r.features == 0,
            r.buffer_bytes == 0,
            r.period_bytes == 0,
            r.channels == 0,
            r.format == 0,
            r.rate == 0,
    {
        PCMParams { features: 0, buffer_bytes: 0, period_bytes: 0, channels: 0, format: 0, rate: 0 }
    }
}

/// The raw audio description of a stream (`spa_audio_info_raw`).
#[derive(Debug)]
pub struct AudioInfoRaw {
    pub format: AudioFormat,
    pub rate: u32,
    pub flags: u32,
    pub channels: u32,
    /// One speaker position per channel, then `Unknown` up to `MAX_CHANNELS` entries.
    pub position: Vec<AudioChannel>,
}

/// Whether a channel count has a speaker layout.
pub open spec fn channels_supported(channels: u8) -> bool {
    1 <= channels <= 6
}

/// The speaker layout used for a channel count.
pub open spec fn channel_layout(channels: u8) -> Seq<AudioChannel> {
    if channels == 6 {
        seq![
            AudioChannel::FL,
            AudioChannel::FR,
            AudioChannel::FC,
            AudioChannel::LFE,
            AudioChannel::RL,
            AudioChannel::RR,
        ]
    } else if channels == 5 {
        seq![
            AudioChannel::FL,
            AudioChannel::FR,
            AudioChannel::FC,
            AudioChannel::LFE,
            AudioChannel::RC,
        ]
    } else if channels == 4 {
        seq![AudioChannel::FL, AudioChannel::FR, AudioChannel::FC, AudioChannel::RC]
    } else if channels == 3 {
        seq![AudioChannel::FL, AudioChannel::FR, AudioChannel::LFE]
    } else if channels == 2 {
        seq![AudioChannel::FL, AudioChannel::FR]
    } else if channels == 1 {
        seq![AudioChannel::Mono]
    } else {
        seq![]
    }
}

/// A full position table: the layout, padded with `Unknown` to `MAX_CHANNELS` entries.
pub open spec fn position_table(layout: Seq<AudioChannel>) -> Seq<AudioChannel> {
    Seq::new(
        MAX_CHANNELS as nat,
        |i: int| if i < layout.len() { layout[i] } else { AudioChannel::Unknown },
    )
}

/// The SPA sample format that a virtio PCM format stands for.
pub open spec fn spec_audio_format(format: u8) -> AudioFormat {
    if format == VIRTIO_SND_PCM_FMT_MU_LAW {
        AudioFormat::Ulaw
    } else if format == VIRTIO_SND_PCM_FMT_A_LAW {
        AudioFormat::Alaw
    } else if format == VIRTIO_SND_PCM_FMT_S8 {
        AudioFormat::S8
    } else if format == VIRTIO_SND_PCM_FMT_U8 {
        AudioFormat::U8
    } else if format == VIRTIO_SND_PCM_FMT_S16 {
        AudioFormat::S16
    } else if format == VIRTIO_SND_PCM_FMT_U16 {
        AudioFormat::U16
    } else if format == VIRTIO_SND_PCM_FMT_S18_3 {
        AudioFormat::S18Le
    } else if format == VIRTIO_SND_PCM_FMT_U18_3 {
        AudioFormat::U18Le
    } else if format == VIRTIO_SND_PCM_FMT_S20_3 {
        AudioFormat::S20Le
    } else if format == VIRTIO_SND_PCM_FMT_U20_3 {
        AudioFormat::U20Le
    } else if format == VIRTIO_SND_PCM_FMT_S24_3 {
        AudioFormat::S24Le
    } else if format == VIRTIO_SND_PCM_FMT_U24_3 {
        AudioFormat::U24Le
    } else if format == VIRTIO_SND_PCM_FMT_S20 {
        AudioFormat::S20
    } else if format == VIRTIO_SND_PCM_FMT_U20 {
        AudioFormat::U20
    } else if format == VIRTIO_SND_PCM_FMT_S24 {
        AudioFormat::S24
    } else if format == VIRTIO_SND_PCM_FMT_U24 {
        AudioFormat::U24
    } else if format == VIRTIO_SND_PCM_FMT_S32 {
        AudioFormat::S32
    } else if format == VIRTIO_SND_PCM_FMT_U32 {
        AudioFormat::U32
    } else if format == VIRTIO_SND_PCM_FMT_FLOAT {
        AudioFormat::F32
    } else if format == VIRTIO_SND_PCM_FMT_FLOAT64 {
        AudioFormat::F64
    } else {
        AudioFormat::Unknown
    }
}

/// The frame rate in Hz that a virtio PCM rate stands for; 44100 Hz for
/// any code that is not a rate.
pub open spec fn spec_rate_hz(rate: u8) -> u32 {
    if rate == VIRTIO_SND_PCM_RATE_5512 {
        5512
    } else if rate == VIRTIO_SND_PCM_RATE_8000 {
        8000
    } else if rate == VIRTIO_SND_PCM_RATE_11025 {
        11025
    } else if rate == VIRTIO_SND_PCM_RATE_16000 {
        16000
    } else if rate == VIRTIO_SND_PCM_RATE_22050 {
        22050
    } else if rate == VIRTIO_SND_PCM_RATE_32000 {
        32000
    } else if rate == VIRTIO_SND_PCM_RATE_44100 {
        44100
    } else if rate == VIRTIO_SND_PCM_RATE_48000 {
        48000
    } else if rate == VIRTIO_SND_PCM_RATE_64000 {
        64000
    } else if rate == VIRTIO_SND_PCM_RATE_88200 {
        88200
    } else if rate == VIRTIO_SND_PCM_RATE_96000 {
        96000
    } else if rate == VIRTIO_SND_PCM_RATE_176400 {
        176400
    } else if rate == VIRTIO_SND_PCM_RATE_192000 {
        192000
    } else if rate == VIRTIO_SND_PCM_RATE_384000 {
        384000
    } else {
        44100
    }
}

/// The channel position table for a channel count, or
/// `ChannelNotSupported` where the count has no layout.
pub fn channel_positions(channels: u8) -> (r: Result<Vec<AudioChannel>, Error>)
    ensures
        match r {
            Ok(pos) => channels_supported(channels) && pos@ == position_table(
                channel_layout(channels),
            ),
            Err(e) => !channels_supported(channels) && e == Error::ChannelNotSupported,
        },
{
    let layout: Vec<AudioChannel> = if channels == 6 {
        vec![
            AudioChannel::FL,
            AudioChannel::FR,
            AudioChannel::FC,
            AudioChannel::LFE,
            AudioChannel::RL,
            AudioChannel::RR,
        ]
    } else if channels == 5 {
        vec![
            AudioChannel::FL,
            AudioChannel::FR,
            AudioChannel::FC,
            AudioChannel::LFE,
            AudioChannel::RC,
        ]
    } else if channels == 4 {
        vec![AudioChannel::FL, AudioChannel::FR, AudioChannel::FC, AudioChannel::RC]
    } else if channels == 3 {
        vec![AudioChannel::FL, AudioChannel::FR, AudioChannel::LFE]
    } else if channels == 2 {
        vec![AudioChannel::FL, AudioChannel::FR]
    } else if channels == 1 {
        vec![AudioChannel::Mono]
    } else {
        return Err(Error::ChannelNotSupported);
    };
    assert(layout@ =~= channel_layout(channels));
    let mut pos: Vec<AudioChannel> = Vec::new();
    let mut i: usize = 0;
    while i < MAX_CHANNELS
        invariant
            i <= MAX_CHANNELS,
            layout@ == channel_layout(channels),
            layout@.len() <= 6,
            pos@ =~= position_table(layout@).take(i as int),
        decreases MAX_CHANNELS - i,
    {
        if i < layout.len() {
            pos.push(layout[i]);
        } else {
            pos.push(AudioChannel::Unknown);
        }
        i = i + 1;
    }
    assert(pos@ =~= position_table(layout@));
    Ok(pos)
}

/// The SPA sample format for a virtio PCM format code.
pub fn audio_format(format: u8) -> (r: AudioFormat)
    ensures
        r == spec_audio_format(format),
{
    if format == VIRTIO_SND_PCM_FMT_MU_LAW {
        AudioFormat::Ulaw
    } else if format == VIRTIO_SND_PCM_FMT_A_LAW {
        AudioFormat::Alaw
    } else if format == VIRTIO_SND_PCM_FMT_S8 {
        AudioFormat::S8
    } else if format == VIRTIO_SND_PCM_FMT_U8 {
        AudioFormat::U8
    } else if format == VIRTIO_SND_PCM_FMT_S16 {
        AudioFormat::S16
    } else if format == VIRTIO_SND_PCM_FMT_U16 {
        AudioFormat::U16
    } else if format == VIRTIO_SND_PCM_FMT_S18_3 {
        AudioFormat::S18Le
    } else if format == VIRTIO_SND_PCM_FMT_U18_3 {
        AudioFormat::U18Le
    } else if format == VIRTIO_SND_PCM_FMT_S20_3 {
        AudioFormat::S20Le
    } else if format == VIRTIO_SND_PCM_FMT_U20_3 {
        AudioFormat::U20Le
    } else if format == VIRTIO_SND_PCM_FMT_S24_3 {
        AudioFormat::S24Le
    } else if format == VIRTIO_SND_PCM_FMT_U24_3 {
        AudioFormat::U24Le
    } else if format == VIRTIO_SND_PCM_FMT_S20 {
        AudioFormat::S20
    } else if format == VIRTIO_SND_PCM_FMT_U20 {
        AudioFormat::U20
    } else if format == VIRTIO_SND_PCM_FMT_S24 {
        AudioFormat::S24
    } else if format == VIRTIO_SND_PCM_FMT_U24 {
        AudioFormat::U24
    } else if format == VIRTIO_SND_PCM_FMT_S32 {
        AudioFormat::S32
    } else if format == VIRTIO_SND_PCM_FMT_U32 {
        AudioFormat::U32
    } else if format == VIRTIO_SND_PCM_FMT_FLOAT {
        AudioFormat::F32
    } else if format == VIRTIO_SND_PCM_FMT_FLOAT64 {
        AudioFormat::F64
    } else {
        AudioFormat::Unknown
    }
}

/// The frame rate in Hz for a virtio PCM rate code.
pub fn rate_hz(rate: u8) -> (r: u32)
    ensures
        r == spec_rate_hz(rate),
{
    if rate == VIRTIO_SND_PCM_RATE_5512 {
        5512
    } else if rate == VIRTIO_SND_PCM_RATE_8000 {
        8000
    } else if rate == VIRTIO_SND_PCM_RATE_11025 {
        11025
    } else if rate == VIRTIO_SND_PCM_RATE_16000 {
        16000
    } else if rate == VIRTIO_SND_PCM_RATE_22050 {
        22050
    } else if rate == VIRTIO_SND_PCM_RATE_32000 {
        32000
    } else if rate == VIRTIO_SND_PCM_RATE_44100 {
        44100
    } else if rate == VIRTIO_SND_PCM_RATE_48000 {
        48000
    } else if rate == VIRTIO_SND_PCM_RATE_64000 {
        64000
    } else if rate == VIRTIO_SND_PCM_RATE_88200 {
        88200
    } else if rate == VIRTIO_SND_PCM_RATE_96000 {
        96000
    } else if rate == VIRTIO_SND_PCM_RATE_176400 {
        176400
    } else if rate == VIRTIO_SND_PCM_RATE_192000 {
        192000
    } else if rate == VIRTIO_SND_PCM_RATE_384000 {
        384000
    } else {
        44100
    }
}

/// The raw audio description of a stream with the given parameters:
/// `ChannelNotSupported` where the channel count has no speaker layout.
pub fn audio_info_raw(params: &PCMParams) -> (r: Result<AudioInfoRaw, Error>)
    ensures
        match r {
            Ok(info) => {
                &&& channels_supported(params.channels)
                &&& info.format == spec_audio_format(params.format)
                &&& info.rate == spec_rate_hz(params.rate)
                &&& info.flags == 0
                &&& info.channels == params.channels
                &&& info.position@ == position_table(channel_layout(params.channels))
            },
            Err(e) => !channels_supported(params.channels) && e == Error::ChannelNotSupported,
        },
{
    let position = channel_positions(params.channels)?;
    Ok(
        AudioInfoRaw {
            format: audio_format(params.format),
            rate: rate_hz(params.rate),
            flags: 0,
            channels: params.channels as u32,
            position,
        },
    )
}

/// The node latency in samples asked of PipeWire for a rate: three quarters
/// of a 10 ms timer period.
pub fn node_latency_samples(rate: u32) -> (r: u32)
    requires
        rate * 3 <= u32::MAX,
    ensures
        r == rate * 3 / 4 / 100,
{
    rate * 3 / 4 / 100
}

/// Bytes per frame of the 16-bit samples that the stream carries.
pub fn frame_size(channels: u32) -> (r: u32)
    requires
        channels * 2 <= u32::MAX,
    ensures
        r == channels * 2,
{
    channels * 2
}

/// A supported channel count has one speaker position per channel, all
/// known and no two alike; the rest of the position table is `Unknown`.
pub proof fn lemma_layout_well_formed(channels: u8)
    requires
        channels_supported(channels),
    ensures
        channel_layout(channels).len() == channels,
        forall|i: int|
            0 <= i < channels ==> #[trigger] channel_layout(channels)[i] != AudioChannel::Unknown,
        forall|i: int, j: int|
            0 <= i < j < channels ==> #[trigger] channel_layout(channels)[i]
                != #[trigger] channel_layout(channels)[j],
        forall|i: int|
            channels <= i < MAX_CHANNELS ==> #[trigger] position_table(channel_layout(channels))[i]
                == AudioChannel::Unknown,
{
}

/// The format table: each virtio PCM format code (numbered as in the virtio
/// sound device) names the PipeWire format of the same sample type, byte
/// packing and signedness; IMA ADPCM, the DSD formats, IEC958 subframes and
/// codes beyond them have none.
pub proof fn lemma_audio_format_table(format: u8)
    ensures
        spec_audio_format(1u8) == AudioFormat::Ulaw,
        spec_audio_format(2u8) == AudioFormat::Alaw,
        spec_audio_format(3u8) == AudioFormat::S8,
        spec_audio_format(4u8) == AudioFormat::U8,
        spec_audio_format(5u8) == AudioFormat::S16,
        spec_audio_format(6u8) == AudioFormat::U16,
        spec_audio_format(7u8) == AudioFormat::S18Le,
        spec_audio_format(8u8) == AudioFormat::U18Le,
        spec_audio_format(9u8) == AudioFormat::S20Le,
        spec_audio_format(10u8) == AudioFormat::U20Le,
        spec_audio_format(11u8) == AudioFormat::S24Le,
        spec_audio_format(12u8) == AudioFormat::U24Le,
        spec_audio_format(13u8) == AudioFormat::S20,
        spec_audio_format(14u8) == AudioFormat::U20,
        spec_audio_format(15u8) == AudioFormat::S24,
        spec_audio_format(16u8) == AudioFormat::U24,
        spec_audio_format(17u8) == AudioFormat::S32,
        spec_audio_format(18u8) == AudioFormat::U32,
        spec_audio_format(19u8) == AudioFormat::F32,
        spec_audio_format(20u8) == AudioFormat::F64,
        format == 0 || format > 20 ==> spec_audio_format(format) == AudioFormat::Unknown,
{
}

/// The rate table: each virtio PCM rate code (numbered as in the virtio
/// sound device) names the frame rate its name gives; any other code plays
/// at 44100 Hz.
pub proof fn lemma_rate_table(rate: u8)
    ensures
        spec_rate_hz(0u8) == 5512,
        spec_rate_hz(1u8) == 8000,
        spec_rate_hz(2u8) == 11025,
        spec_rate_hz(3u8) == 16000,
        spec_rate_hz(4u8) == 22050,
        spec_rate_hz(5u8) == 32000,
        spec_rate_hz(6u8) == 44100,
        spec_rate_hz(7u8) == 48000,
        spec_rate_hz(8u8) == 64000,
        spec_rate_hz(9u8) == 88200,
        spec_rate_hz(10u8) == 96000,
        spec_rate_hz(11u8) == 176400,
        spec_rate_hz(12u8) == 192000,
        spec_rate_hz(13u8) == 384000,
        rate > 13 ==> spec_rate_hz(rate) == 44100,
{
}

/// The speaker layouts: mono; front left and right; then the centre,
/// low-frequency and rear speakers in the order the counts add them.
pub proof fn lemma_channel_layout_table()
    ensures
        channel_layout(1) == seq![AudioChannel::Mono],
        channel_layout(2) == seq![AudioChannel::FL, AudioChannel::FR],
        channel_layout(3) == seq![AudioChannel::FL, AudioChannel::FR, AudioChannel::LFE],
        channel_layout(4) == seq![AudioChannel::FL, AudioChannel::FR, AudioChannel::FC, AudioChannel::RC],
        channel_layout(5) == seq![
            AudioChannel::FL,
            AudioChannel::FR,
            AudioChannel::FC,
            AudioChannel::LFE,
            AudioChannel::RC,
        ],
        channel_layout(6) == seq![
            AudioChannel::FL,
            AudioChannel::FR,
            AudioChannel::FC,
            AudioChannel::LFE,
            AudioChannel::RL,
            AudioChannel::RR,
        ],
{
}

/// Exactly the virtio formats from mu-law to 64-bit float have a PipeWire
/// format, and no two of them share one.
pub proof fn lemma_audio_format_one_to_one(a: u8, b: u8)
    ensures
        spec_audio_format(a) != AudioFormat::Unknown <==> (VIRTIO_SND_PCM_FMT_MU_LAW <= a
            <= VIRTIO_SND_PCM_FMT_FLOAT64),
        spec_audio_format(a) != AudioFormat::Unknown && spec_audio_format(a) == spec_audio_format(
            b,
        ) ==> a == b,
{
}

/// Every virtio rate code names its own rate; any other code plays at 44100 Hz.
pub proof fn lemma_rate_one_to_one(a: u8, b: u8)
    ensures
        a <= VIRTIO_SND_PCM_RATE_384000 && b <= VIRTIO_SND_PCM_RATE_384000 && spec_rate_hz(a)
            == spec_rate_hz(b) ==> a == b,
        a > VIRTIO_SND_PCM_RATE_384000 ==> spec_rate_hz(a) == 44100,
        5512 <= spec_rate_hz(a) <= 384000,
{
}

} // verus!
