//! The decisions of the PipeWire sound backend on the control requests of a
//! stream. The stream's own state machine has already ruled on the request
//! (`accepted`); these functions decide what the backend answers and what
//! it asks of PipeWire, and keep track of which streams have a PipeWire
//! stream.
use crate::error::Error;
use crate::pcm::{
    audio_info_raw, channel_layout, channels_supported, frame_size, node_latency_samples,
    position_table, spec_audio_format, spec_rate_hz, AudioInfoRaw, PCMParams,
};
use crate::playback::PcmBuffer;
use crate::spa::{AudioFormat, Direction};
use crate::virtio_sound::{
    VIRTIO_SND_D_INPUT, VIRTIO_SND_D_OUTPUT, VIRTIO_SND_S_BAD_MSG, VIRTIO_SND_S_NOT_SUPP,
};
use std::collections::{HashSet, VecDeque};
use vstd::prelude::*;

verus! {

broadcast use vstd::std_specs::hash::group_hash_axioms;

/// How a PipeWire stream is to be created for a prepared PCM stream.
#[derive(Debug)]
pub struct StreamPlan {
    /// The raw audio description derived from the stream's parameters.
    pub info: AudioInfoRaw,
    /// The sample format offered to PipeWire when negotiating.
    pub negotiated_format: AudioFormat,
    /// The node latency asked of PipeWire, in samples at `info.rate`.
    pub latency_samples: u32,
    /// Bytes per frame of the stream's 16-bit samples.
    pub frame_size: u32,
    pub direction: Direction,
}

/// What the backend asks of PipeWire after a control request.
#[derive(Debug)]
pub enum StreamAction {
    /// Nothing.
    Nothing,
    /// Create a PipeWire stream as planned and connect it.
    Connect(StreamPlan),
    /// Disconnect the stream's PipeWire stream and drop it.
    Disconnect,
    /// Make the stream's PipeWire stream active (`true`) or inactive.
    SetActive(bool),
}

/// The PipeWire direction of a virtio stream direction.
pub open spec fn spec_direction(direction: u8) -> Direction {
    if direction == VIRTIO_SND_D_OUTPUT {
        Direction::Output
    } else {
        Direction::Input
    }
}

/// A plan is the one derived from the given parameters and direction.
pub open spec fn plan_for(plan: StreamPlan, params: PCMParams, direction: u8) -> bool {
    &&& plan.info.format == spec_audio_format(params.format)
    &&& plan.info.rate == spec_rate_hz(params.rate)
    &&& plan.info.flags == 0
    &&& plan.info.channels == params.channels
    &&& plan.info.position@ == position_table(channel_layout(params.channels))
    &&& plan.negotiated_format == AudioFormat::S16Le
    &&& plan.latency_samples == spec_rate_hz(params.rate) * 3 / 4 / 100
    &&& plan.frame_size == params.channels * 2
    &&& plan.direction == spec_direction(direction)
}

/// The answer to START (`active`) or STOP (`!active`) on a stream.
pub open spec fn activation_outcome(live: Set<u32>, stream_id: u32, accepted: bool, active: bool) -> Result<
    StreamAction,
    Error,
> {
    if !accepted {
        Ok(StreamAction::Nothing)
    } else if !live.contains(stream_id) {
        Err(Error::StreamWithIdNotFound(stream_id))
    } else {
        Ok(StreamAction::SetActive(active))
    }
}

/// The answer to RELEASE on a stream.
pub open spec fn release_outcome(live: Set<u32>, stream_id: u32, accepted: bool) -> Result<
    StreamAction,
    Error,
> {
    if !accepted {
        Ok(StreamAction::Nothing)
    } else if !live.contains(stream_id) {
        Err(Error::StreamWithIdNotFound(stream_id))
    } else {
        Ok(StreamAction::Disconnect)
    }
}

/// The streams that have a PipeWire stream after RELEASE.
pub open spec fn live_after_release(live: Set<u32>, stream_id: u32, accepted: bool) -> Set<u32> {
    if accepted {
        live.remove(stream_id)
    } else {
        live
    }
}

/// A stream whose PipeWire stream was planned by PREPARE can be started and
/// stopped.
pub proof fn lemma_prepared_stream_activates(live: Set<u32>, stream_id: u32, active: bool)
    ensures
        activation_outcome(live.insert(stream_id), stream_id, true, active) == Ok::<
            StreamAction,
            Error,
        >(StreamAction::SetActive(active)),
{
}

/// Once a stream is released, starting, stopping or releasing it again finds
/// no PipeWire stream.
pub proof fn lemma_released_stream_is_gone(live: Set<u32>, stream_id: u32, active: bool)
    ensures
        activation_outcome(live_after_release(live, stream_id, true), stream_id, true, active)
            == Err::<StreamAction, Error>(Error::StreamWithIdNotFound(stream_id)),
        release_outcome(live_after_release(live, stream_id, true), stream_id, true) == Err::<
            StreamAction,
            Error,
        >(Error::StreamWithIdNotFound(stream_id)),
{
}

/// A START or STOP that the stream's state refuses asks nothing of PipeWire
/// and is no error, whether or not the stream has a PipeWire stream; an
/// accepted one is an error exactly when the stream has none.
pub proof fn lemma_activation_answers(live: Set<u32>, stream_id: u32, accepted: bool, active: bool)
    ensures
        !accepted ==> activation_outcome(live, stream_id, accepted, active) == Ok::<
            StreamAction,
            Error,
        >(StreamAction::Nothing),
        accepted ==> (activation_outcome(live, stream_id, accepted, active) is Err
            <==> !live.contains(stream_id)),
        activation_outcome(live, stream_id, accepted, active) is Err ==> activation_outcome(
            live,
            stream_id,
            accepted,
            active,
        ) == Err::<StreamAction, Error>(Error::StreamWithIdNotFound(stream_id)),
{
}

/// A RELEASE that the stream's state refuses asks nothing of PipeWire, is no
/// error and forgets nothing, whether or not the stream has a PipeWire
/// stream; an accepted one is an error exactly when the stream has none, and
/// otherwise disconnects and forgets exactly that stream.
pub proof fn lemma_release_answers(live: Set<u32>, stream_id: u32, accepted: bool)
    ensures
        !accepted ==> release_outcome(live, stream_id, accepted) == Ok::<StreamAction, Error>(
            StreamAction::Nothing,
        ) && live_after_release(live, stream_id, accepted) == live,
        accepted ==> (release_outcome(live, stream_id, accepted) is Err <==> !live.contains(
            stream_id,
        )),
        accepted && live.contains(stream_id) ==> release_outcome(live, stream_id, accepted)
            == Ok::<StreamAction, Error>(StreamAction::Disconnect) && !live_after_release(
            live,
            stream_id,
            accepted,
        ).contains(stream_id),
{
}

/// Releasing one stream leaves every other stream's PipeWire stream alone.
pub proof fn lemma_release_is_local(live: Set<u32>, stream_id: u32, other: u32, accepted: bool)
    requires
        other != stream_id,
    ensures
        live_after_release(live, stream_id, accepted).contains(other) == live.contains(other),
{
}

/// Applies SET_PARAMETERS: a request that the stream's state refuses is
/// answered `VIRTIO_SND_S_BAD_MSG`, one with a format or rate the stream
/// does not support `VIRTIO_SND_S_NOT_SUPP`; otherwise the requested
/// parameters are stored and the status is left as it is.
pub fn set_parameters(
    params: &mut PCMParams,
    request: &PCMParams,
    accepted: bool,
    format_supported: bool,
    rate_supported: bool,
    code: &mut u32,
)
    ensures
        !accepted ==> *final(code) == VIRTIO_SND_S_BAD_MSG && *final(params) == *old(params),
        accepted && !(format_supported && rate_supported) ==> *final(code)
            == VIRTIO_SND_S_NOT_SUPP && *final(params) == *old(params),
        accepted && format_supported && rate_supported ==> {
            &&& *final(code) == *old(code)
            &&& final(params).features == request.features
            &&& final(params).buffer_bytes == request.buffer_bytes
            &&& final(params).period_bytes == request.period_bytes
            &&& final(params).channels == request.channels
            &&& final(params).format == request.format
            &&& final(params).rate == request.rate
        },
{
    if !accepted {
        *code = VIRTIO_SND_S_BAD_MSG;
    } else if !format_supported || !rate_supported {
        *code = VIRTIO_SND_S_NOT_SUPP;
    } else {
        params.features = request.features;
        params.buffer_bytes = request.buffer_bytes;
        params.period_bytes = request.period_bytes;
        params.channels = request.channels;
        params.format = request.format;
        params.rate = request.rate;
    }
}

/// The set of streams that have a PipeWire stream.
pub struct StreamRegistry {
    live: HashSet<u32>,
}

impl View for StreamRegistry {
    type V = Set<u32>;

    closed spec fn view(&self) -> Set<u32> {
        self.live@
    }
}

impl StreamRegistry {
    /// A registry in which no stream has a PipeWire stream.
    pub fn new() -> (r: Self)
        ensures
            r@ == Set::<u32>::empty(),
    {
        StreamRegistry { live: HashSet::new() }
    }

    /// Whether a stream has a PipeWire stream.
    pub fn contains(&self, stream_id: u32) -> (r: bool)
        ensures
            r == self@.contains(stream_id),
    {
        self.live.contains(&stream_id)
    }

    /// Applies PREPARE: when the stream's state accepts it, plans the
    /// PipeWire stream (`ChannelNotSupported` where the channel count has no
    /// speaker layout) and records that the stream has one.
    pub fn prepare(&mut self, stream_id: u32, accepted: bool, params: &PCMParams, direction: u8) -> (r:
        Result<StreamAction, Error>)
        requires
            accepted && channels_supported(params.channels) ==> direction == VIRTIO_SND_D_OUTPUT
                || direction == VIRTIO_SND_D_INPUT,
        ensures
            !accepted ==> r == Ok::<StreamAction, Error>(StreamAction::Nothing) && final(self)@
                == old(self)@,
            accepted && !channels_supported(params.channels) ==> r == Err::<StreamAction, Error>(
                Error::ChannelNotSupported,
            ) && final(self)@ == old(self)@,
            accepted && channels_supported(params.channels) ==> {
                &&& r matches Ok(StreamAction::Connect(plan)) && plan_for(plan, *params, direction)
                    && plan.info.format == spec_audio_format(params.format) && plan.info.rate
                    == spec_rate_hz(params.rate) && plan.info.flags == 0 && plan.info.channels
                    == params.channels && plan.info.position@ == position_table(
                    channel_layout(params.channels),
                ) && plan.negotiated_format == AudioFormat::S16Le && plan.latency_samples
                    == spec_rate_hz(params.rate) * 3 / 4 / 100 && plan.frame_size
                    == params.channels * 2 && (direction == VIRTIO_SND_D_OUTPUT ==> plan.direction
                    == Direction::Output) && (direction == VIRTIO_SND_D_INPUT ==> plan.direction
                    == Direction::Input)
                &&& final(self)@ == old(self)@.insert(stream_id)
            },
    {
        if !accepted {
            return Ok(StreamAction::Nothing);
        }
        let info = audio_info_raw(params)?;
        let latency_samples = node_latency_samples(info.rate);
        let frame = frame_size(info.channels);
        let dir = if direction == VIRTIO_SND_D_OUTPUT {
            Direction::Output
        } else {
            Direction::Input
        };
        self.live.insert(stream_id);
        Ok(
            StreamAction::Connect(
                StreamPlan {
                    info,
                    negotiated_format: AudioFormat::S16Le,
                    latency_samples,
                    frame_size: frame,
                    direction: dir,
                },
            ),
        )
    }

    /// Applies RELEASE: a request that the stream's state refuses is answered
    /// `VIRTIO_SND_S_BAD_MSG`; otherwise the stream's PipeWire stream is
    /// disconnected, its queued buffers dropped and its record removed, or
    /// `StreamWithIdNotFound` is returned where it has none.
    pub fn release(
        &mut self,
        stream_id: u32,
        accepted: bool,
        buffers: &mut VecDeque<PcmBuffer>,
        code: &mut u32,
    ) -> (r: Result<StreamAction, Error>)
        ensures
            r == release_outcome(old(self)@, stream_id, accepted),
            final(self)@ == live_after_release(old(self)@, stream_id, accepted),
            !accepted ==> r == Ok::<StreamAction, Error>(StreamAction::Nothing) && final(self)@
                == old(self)@,
            accepted && !old(self)@.contains(stream_id) ==> r == Err::<StreamAction, Error>(
                Error::StreamWithIdNotFound(stream_id),
            ) && final(self)@ == old(self)@,
            accepted && old(self)@.contains(stream_id) ==> r == Ok::<StreamAction, Error>(
                StreamAction::Disconnect,
            ) && final(self)@ == old(self)@.remove(stream_id),
            !accepted ==> *final(code) == VIRTIO_SND_S_BAD_MSG,
            accepted ==> *final(code) == *old(code),
            r matches Ok(StreamAction::Disconnect) ==> final(buffers)@ == Seq::<PcmBuffer>::empty(),
            !(r matches Ok(StreamAction::Disconnect)) ==> final(buffers)@ == old(buffers)@,
    {
        if !accepted {
            *code = VIRTIO_SND_S_BAD_MSG;
            return Ok(StreamAction::Nothing);
        }
        if !self.live.contains(&stream_id) {
            return Err(Error::StreamWithIdNotFound(stream_id));
        }
        buffers.clear();
        self.live.remove(&stream_id);
        Ok(StreamAction::Disconnect)
    }

    /// Applies START: when the stream's state accepts it, activates the
    /// stream's PipeWire stream, or returns `StreamWithIdNotFound` where it
    /// has none.
    pub fn start(&self, stream_id: u32, accepted: bool) -> (r: Result<StreamAction, Error>)
        ensures
            r == activation_outcome(self@, stream_id, accepted, true),
            !accepted ==> r == Ok::<StreamAction, Error>(StreamAction::Nothing),
            accepted && !self@.contains(stream_id) ==> r == Err::<StreamAction, Error>(
                Error::StreamWithIdNotFound(stream_id),
            ),
            accepted && self@.contains(stream_id) ==> r == Ok::<StreamAction, Error>(
                StreamAction::SetActive(true),
            ),
    {
        self.activation(stream_id, accepted, true)
    }

    /// Applies STOP: when the stream's state accepts it, deactivates the
    /// stream's PipeWire stream, or returns `StreamWithIdNotFound` where it
    /// has none.
    pub fn stop(&self, stream_id: u32, accepted: bool) -> (r: Result<StreamAction, Error>)
        ensures
            r == activation_outcome(self@, stream_id, accepted, false),
            !accepted ==> r == Ok::<StreamAction, Error>(StreamAction::Nothing),
            accepted && !self@.contains(stream_id) ==> r == Err::<StreamAction, Error>(
                Error::StreamWithIdNotFound(stream_id),
            ),
            accepted && self@.contains(stream_id) ==> r == Ok::<StreamAction, Error>(
                StreamAction::SetActive(false),
            ),
    {
        self.activation(stream_id, accepted, false)
    }

    fn activation(&self, stream_id: u32, accepted: bool, active: bool) -> (r: Result<
        StreamAction,
        Error,
    >)
        ensures
            r == activation_outcome(self@, stream_id, accepted, active),
    {
        if !accepted {
            Ok(StreamAction::Nothing)
        } else if !self.live.contains(&stream_id) {
            Err(Error::StreamWithIdNotFound(stream_id))
        } else {
            Ok(StreamAction::SetActive(active))
        }
    }
}

} // verus!
