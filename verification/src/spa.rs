//! The PipeWire (SPA) audio vocabulary that the backend hands to PipeWire:
//! speaker positions and sample formats, one variant per SPA constant used.
use vstd::prelude::*;

verus! {

/// A speaker position of a raw audio channel (`SPA_AUDIO_CHANNEL_*`).
#[derive(Clone, Copy, Debug, PartialEq, Eq, Structural)]
pub enum AudioChannel {
    Unknown,
    Mono,
    FL,
    FR,
    FC,
    LFE,
    RL,
    RR,
    RC,
}

/// A raw audio sample format (`SPA_AUDIO_FORMAT_*`); the variants without an
/// endianness suffix are the host-endian formats.
#[derive(Clone, Copy, Debug, PartialEq, Eq, Structural)]
pub enum AudioFormat {
    Unknown,
    Ulaw,
    Alaw,
    S8,
    U8,
    S16,
    S16Le,
    U16,
    S18Le,
    U18Le,
    S20Le,
    U20Le,
    S24Le,
    U24Le,
    S20,
    U20,
    S24,
    U24,
    S32,
    U32,
    F32,
    F64,
}

/// The direction of a PipeWire stream (`spa::Direction`).
#[derive(Clone, Copy, Debug, PartialEq, Eq, Structural)]
pub enum Direction {
    Input,
    Output,
}

} // verus!
