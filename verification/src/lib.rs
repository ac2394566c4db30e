//! Verified core of a vhost-user device backend set: the GPU backend's
//! configuration and the decisions a PipeWire sound backend takes.

pub mod control;
pub mod error;
pub mod gpu;
pub mod pcm;
pub mod playback;
pub mod spa;
pub mod virtio_sound;

pub use error::Error;
pub use gpu::{GpuConfig, GpuMode};
pub use pcm::PCMParams;
