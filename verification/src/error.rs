//! Errors of the sound backend.
use vstd::prelude::*;

verus! {

/// Errors that the sound backend returns to its caller.
#[derive(Clone, Copy, Debug, PartialEq, Eq, Structural)]
pub enum Error {
    /// The stream's channel count has no speaker layout.
    ChannelNotSupported,
    /// No PipeWire stream exists for this stream id.
    StreamWithIdNotFound(u32),
}

} // verus!
