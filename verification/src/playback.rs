//! What the playback callback does each time PipeWire asks for a period:
//! how many bytes it hands over, which queued guest bytes they are, and how
//! the queue of guest buffers moves on.
use crate::pcm::{channel_layout, position_table, AudioInfoRaw};
use crate::spa::{AudioChannel, AudioFormat};
use std::collections::VecDeque;
use vstd::prelude::*;

verus! {

/// A buffer of PCM bytes that the guest queued on a stream, and how far
/// playback has read into it.
#[derive(Debug)]
pub struct PcmBuffer {
    pub bytes: Vec<u8>,
    pub pos: usize,
}

impl PcmBuffer {
    /// The read position lies within the bytes.
    pub open spec fn wf(&self) -> bool {
        self.pos <= self.bytes@.len()
    }

    /// The bytes not yet played.
    pub open spec fn remaining(&self) -> Seq<u8> {
        self.bytes@.skip(self.pos as int)
    }
}

/// Every buffer of a queue is well formed.
pub open spec fn all_wf(q: Seq<PcmBuffer>) -> bool {
    forall|i: int| 0 <= i < q.len() ==> (#[trigger] q[i]).wf()
}

/// The bytes of a queue that are still to be played, in playing order.
pub open spec fn pending(q: Seq<PcmBuffer>) -> Seq<u8>
    decreases q.len(),
{
    if q.len() == 0 {
        seq![]
    } else {
        q[0].remaining() + pending(q.drop_first())
    }
}

/// What the callback writes into the chunk header of a PipeWire buffer.
#[derive(Clone, Copy, Debug, PartialEq, Eq, Structural)]
pub struct Chunk {
    pub offset: u32,
    pub stride: i32,
    pub size: u32,
}

/// Bytes asked for: the requested frames in bytes, cut to 32 bits, and no
/// more than the PipeWire buffer holds.
pub open spec fn request_bytes(frame_size: u32, requested: u64, maxsize: u32) -> u32 {
    let req = (requested * frame_size) as u64;
    if (req as u32) < maxsize {
        req as u32
    } else {
        maxsize
    }
}

/// The bytes left in a buffer, as the 32-bit signed count the callback uses.
pub open spec fn available(b: PcmBuffer) -> i32 {
    (b.bytes@.len() - b.pos) as i32
}

/// The chunk size of a period asking for `want` bytes from buffer `b`.
pub open spec fn period_size(b: PcmBuffer, want: u32) -> u32 {
    let avail = available(b);
    if avail <= 0 {
        want
    } else if avail < (want as i32) {
        avail as u32
    } else {
        want
    }
}

/// The guest bytes that a period copies to PipeWire: every byte left in the
/// front buffer, when it shows any left.
pub open spec fn period_data(b: PcmBuffer, want: u32) -> Seq<u8> {
    if available(b) <= 0 {
        seq![]
    } else {
        b.remaining()
    }
}

/// How many of the front buffer's bytes a period plays: the chunk size, but
/// no more than are left.
pub open spec fn period_consumed(b: PcmBuffer, want: u32) -> int {
    let n = period_size(b, want);
    if available(b) <= 0 {
        0
    } else if n < b.remaining().len() {
        n as int
    } else {
        b.remaining().len() as int
    }
}

/// The queue after a period asking for `want` bytes: unchanged when the
/// front buffer shows nothing left, without the front buffer once it is
/// read to the end, and otherwise with the front buffer read further.
pub open spec fn after_period(q: Seq<PcmBuffer>, want: u32) -> Seq<PcmBuffer> {
    let b = q[0];
    let n = period_size(b, want);
    if available(b) <= 0 {
        q
    } else if b.pos + n >= b.bytes@.len() {
        q.drop_first()
    } else {
        q.update(0, PcmBuffer { bytes: b.bytes, pos: (b.pos + n) as usize })
    }
}

proof fn lemma_pending_front(q: Seq<PcmBuffer>)
    requires
        q.len() > 0,
    ensures
        pending(q) == q[0].remaining() + pending(q.drop_first()),
{
}

/// Serves one period of a playback stream from its queue of guest buffers.
/// `frame_size` is the size of a frame in bytes, `requested` the number of
/// frames PipeWire asks for and `maxsize` the size of its buffer. Returns the
/// chunk header and the bytes to copy to the start of PipeWire's buffer,
/// which are all the bytes left in the front buffer; the chunk header says
/// how many of them the period plays.
pub fn fill_period(
    queue: &mut VecDeque<PcmBuffer>,
    frame_size: u32,
    requested: u64,
    maxsize: u32,
) -> (r: (Chunk, Vec<u8>))
    requires
        old(queue)@.len() > 0,
        old(queue)@[0].wf(),
        requested * frame_size <= u64::MAX,
        available(old(queue)@[0]) > 0 ==> old(queue)@[0].pos + period_size(
            old(queue)@[0],
            request_bytes(frame_size, requested, maxsize),
        ) <= usize::MAX,
    ensures
        r.0.offset == 0,
        r.0.stride == frame_size as i32,
        r.0.size == period_size(
            old(queue)@[0],
            request_bytes(frame_size, requested, maxsize),
        ),
        r.1@ == period_data(old(queue)@[0], request_bytes(frame_size, requested, maxsize)),
        final(queue)@ == after_period(old(queue)@, request_bytes(frame_size, requested, maxsize)),
        all_wf(old(queue)@) ==> all_wf(final(queue)@),
        r.1@.take(period_consumed(old(queue)@[0], request_bytes(frame_size, requested, maxsize)))
            + pending(final(queue)@) == pending(old(queue)@),
        // With bytes left in the front buffer and no 32-bit wrap, the period
        // copies exactly those bytes and claims the smaller of what was asked
        // and what is left.
        old(queue)@[0].pos < old(queue)@[0].bytes@.len() && old(queue)@[0].bytes@.len()
            - old(queue)@[0].pos <= i32::MAX && request_bytes(frame_size, requested, maxsize)
            <= i32::MAX ==> {
            &&& r.1@ == old(queue)@[0].bytes@.subrange(
                old(queue)@[0].pos as int,
                old(queue)@[0].bytes@.len() as int,
            )
            &&& r.0.size <= r.1@.len()
            &&& r.0.size <= request_bytes(frame_size, requested, maxsize)
            &&& (r.0.size == request_bytes(frame_size, requested, maxsize) || r.0.size
                == r.1@.len())
        },
{
    let ghost q0 = queue@;
    let ghost want = request_bytes(frame_size, requested, maxsize);
    let req: u64 = requested * (frame_size as u64);
    let mut n_bytes: u32 = if (req as u32) < maxsize {
        req as u32
    } else {
        maxsize
    };
    let mut front = queue.pop_front().unwrap();
    let mut data: Vec<u8> = Vec::new();
    let start = front.pos;
    let len = front.bytes.len();
    let avail: i32 = (len - start) as i32;
    proof {
        lemma_pending_front(q0);
    }
    if avail <= 0 {
        queue.push_front(front);
        assert(queue@ =~= q0);
    } else {
        if avail < n_bytes as i32 {
            n_bytes = avail as u32;
        }
        let mut i: usize = start;
        while i < len
            invariant
                start <= i <= len,
                len == front.bytes@.len(),
                data@ =~= front.bytes@.subrange(start as int, i as int),
            decreases len - i,
        {
            data.push(front.bytes[i]);
            i = i + 1;
        }
        let ghost rem = front.remaining();
        assert(data@ =~= rem);
        let new_pos: usize = start + (n_bytes as usize);
        if new_pos >= len {
            assert(queue@ =~= q0.drop_first());
            assert(data@.take(period_consumed(q0[0], want)) =~= rem);
        } else {
            front.pos = new_pos;
            let ghost newb = front;
            queue.push_front(front);
            assert(queue@ =~= q0.update(0, newb));
            assert(queue@.drop_first() =~= q0.drop_first());
            assert(newb.remaining() =~= rem.skip(n_bytes as int));
            assert(data@.take(period_consumed(q0[0], want)) =~= rem.take(n_bytes as int));
            assert(rem =~= rem.take(n_bytes as int) + rem.skip(n_bytes as int));
            proof {
                lemma_pending_front(queue@);
            }
        }
    }
    assert(data@.take(period_consumed(q0[0], want)) + pending(queue@) =~= pending(q0));
    proof {
        if q0[0].pos < q0[0].bytes@.len() && q0[0].bytes@.len() - q0[0].pos <= i32::MAX && want
            <= i32::MAX {
            lemma_period_in_range(q0[0], want);
        }
    }
    (Chunk { offset: 0, stride: frame_size as i32, size: n_bytes }, data)
}

/// A period keeps every buffer of a well-formed queue well formed: it
/// leaves the queue alone, drops the front buffer, or moves the front
/// buffer's read position forward (never back), and adds no buffer.
pub proof fn lemma_period_keeps_queue_well_formed(q: Seq<PcmBuffer>, want: u32)
    requires
        q.len() > 0,
        all_wf(q),
    ensures
        all_wf(after_period(q, want)),
        after_period(q, want) == q || after_period(q, want) == q.drop_first() || {
            &&& after_period(q, want).len() == q.len()
            &&& after_period(q, want).drop_first() == q.drop_first()
            &&& after_period(q, want)[0].bytes == q[0].bytes
            &&& after_period(q, want)[0].pos >= q[0].pos
        },
{
    if available(q[0]) > 0 && q[0].pos + period_size(q[0], want) < q[0].bytes@.len() {
        let np = q[0].pos + period_size(q[0], want);
        assert(q[0].bytes@.len() == q[0].bytes.len());
        assert(np as usize == np);
        assert(after_period(q, want).drop_first() =~= q.drop_first());
    }
}

/// A period never claims more bytes than PipeWire's buffer holds, and never
/// plays more guest bytes than it claims.
pub proof fn lemma_period_within_buffer(b: PcmBuffer, frame_size: u32, requested: u64, maxsize: u32)
    requires
        b.wf(),
    ensures
        period_size(b, request_bytes(frame_size, requested, maxsize)) <= maxsize,
        period_consumed(b, request_bytes(frame_size, requested, maxsize)) <= period_size(
            b,
            request_bytes(frame_size, requested, maxsize),
        ),
{
}

/// Outside the 32-bit wrap, a period over a buffer with bytes left copies all
/// of them, claims the smaller of what was asked and what is left, and plays
/// exactly what it claims; over a buffer with nothing left it copies nothing,
/// moves nothing and claims what was asked.
pub proof fn lemma_period_in_range(b: PcmBuffer, want: u32)
    requires
        b.wf(),
        b.bytes@.len() - b.pos <= i32::MAX,
        want <= i32::MAX,
    ensures
        b.pos < b.bytes@.len() ==> {
            &&& period_size(b, want) as int == if want < b.bytes@.len() - b.pos {
                want as int
            } else {
                b.bytes@.len() - b.pos
            }
            &&& period_data(b, want) == b.bytes@.subrange(b.pos as int, b.bytes@.len() as int)
            &&& period_consumed(b, want) == period_size(b, want)
        },
        b.pos == b.bytes@.len() ==> {
            &&& period_size(b, want) == want
            &&& period_data(b, want) == Seq::<u8>::empty()
            &&& period_consumed(b, want) == 0
        },
{
    let rem = b.bytes@.len() - b.pos;
    assert((rem as i32) as int == rem);
    assert((want as i32) as int == want as int);
    if b.pos < b.bytes@.len() {
        assert(b.remaining() =~= b.bytes@.subrange(b.pos as int, b.bytes@.len() as int));
    }
}

/// The bytes a period asks for are the requested frames in bytes, capped by
/// the size of PipeWire's buffer, whenever they fit in 32 bits.
pub proof fn lemma_request_bytes(frame_size: u32, requested: u64, maxsize: u32)
    requires
        requested * frame_size <= u32::MAX,
    ensures
        request_bytes(frame_size, requested, maxsize) as int == if requested * frame_size
            < maxsize {
            requested * frame_size
        } else {
            maxsize as int
        },
{
    let p = requested * frame_size;
    assert((p as u64) as int == p);
    assert(((p as u64) as u32) as int == p);
}

/// The fixed description of the basic playback stream: 16-bit host-endian
/// stereo at 44100 Hz, front left and front right.
pub fn basic_audio_info() -> (r: AudioInfoRaw)
    ensures
        r.format == AudioFormat::S16,
        r.rate == 44100,
        r.flags == 0,
        r.channels == 2,
        r.position@ == position_table(channel_layout(2)),
{
    let mut position: Vec<AudioChannel> = Vec::new();
    position.push(AudioChannel::FL);
    position.push(AudioChannel::FR);
    let mut i: usize = 2;
    while i < 64
        invariant
            2 <= i <= 64,
            position@ =~= position_table(channel_layout(2)).take(i as int),
        decreases 64 - i,
    {
        position.push(AudioChannel::Unknown);
        i = i + 1;
    }
    assert(position@ =~= position_table(channel_layout(2)));
    AudioInfoRaw { format: AudioFormat::S16, rate: 44100, flags: 0, channels: 2, position }
}

/// The chunk header written by the basic playback stream, whose frame size
/// in bytes is its channel count: the requested frames in bytes, cut to 32
/// bits, and no more than the PipeWire buffer holds.
pub fn basic_chunk(channels: u32, requested: u64, maxsize: u32) -> (r: Chunk)
    requires
        requested * channels <= u64::MAX,
    ensures
        r.offset == 0,
        r.stride == channels as i32,
        r.size == request_bytes(channels, requested, maxsize),
{
    let req: u64 = requested * (channels as u64);
    let n_bytes: u32 = if (req as u32) < maxsize {
        req as u32
    } else {
        maxsize
    };
    Chunk { offset: 0, stride: channels as i32, size: n_bytes }
}

} // verus!
