use std::collections::VecDeque;
use vhost_device_backends::playback::{basic_audio_info, basic_chunk, fill_period, Chunk, PcmBuffer};
use vhost_device_backends::spa::{AudioChannel, AudioFormat};

fn queue(bufs: &[&[u8]]) -> VecDeque<PcmBuffer> {
    bufs.iter()
        .map(|b| PcmBuffer { bytes: b.to_vec(), pos: 0 })
        .collect()
}

fn pending(q: &VecDeque<PcmBuffer>) -> Vec<u8> {
    q.iter().flat_map(|b| b.bytes[b.pos..].to_vec()).collect()
}

#[test]
fn period_takes_what_is_asked() {
    let mut q = queue(&[&[1, 2, 3, 4, 5, 6, 7, 8, 9, 10], &[11, 12]]);
    // 2 frames of 4 bytes, buffer of 100 bytes
    let (chunk, data) = fill_period(&mut q, 4, 2, 100);
    assert_eq!(chunk, Chunk { offset: 0, stride: 4, size: 8 });
    // everything left in the front buffer is copied; the chunk plays 8 bytes
    assert_eq!(data, vec![1, 2, 3, 4, 5, 6, 7, 8, 9, 10]);
    assert_eq!(q.len(), 2);
    assert_eq!(q[0].pos, 8);
    assert_eq!(pending(&q), vec![9, 10, 11, 12]);
}

#[test]
fn period_is_cut_to_what_is_left() {
    let mut q = queue(&[&[1, 2, 3], &[4, 5]]);
    let (chunk, data) = fill_period(&mut q, 4, 4, 100);
    assert_eq!(chunk.size, 3);
    assert_eq!(data, vec![1, 2, 3]);
    // the exhausted buffer leaves the queue
    assert_eq!(q.len(), 1);
    assert_eq!(pending(&q), vec![4, 5]);
}

#[test]
fn period_is_cut_to_pipewire_buffer() {
    let mut q = queue(&[&[9; 64]]);
    let (chunk, data) = fill_period(&mut q, 4, 1000, 16);
    assert_eq!(chunk.size, 16);
    assert_eq!(data.len(), 64);
    assert_eq!(q[0].pos, 16);
}

#[test]
fn exact_fit_pops_buffer() {
    let mut q = queue(&[&[1, 2, 3, 4], &[5]]);
    let (chunk, data) = fill_period(&mut q, 2, 2, 100);
    assert_eq!(chunk.size, 4);
    assert_eq!(data, vec![1, 2, 3, 4]);
    assert_eq!(q.len(), 1);
    assert_eq!(q[0].bytes, vec![5]);
}

#[test]
fn empty_front_buffer_gives_nothing() {
    let mut q = queue(&[&[], &[1]]);
    let (chunk, data) = fill_period(&mut q, 2, 3, 100);
    // the chunk still claims the requested size, but no guest bytes move
    assert_eq!(chunk, Chunk { offset: 0, stride: 2, size: 6 });
    assert!(data.is_empty());
    assert_eq!(q.len(), 2);
    assert_eq!(pending(&q), vec![1]);
}

#[test]
fn stream_is_played_in_order_without_loss() {
    let mut q = queue(&[&[1, 2, 3, 4, 5], &[6, 7, 8], &[9, 10, 11, 12, 13, 14, 15]]);
    let all = pending(&q);
    let mut played: Vec<u8> = Vec::new();
    while !q.is_empty() {
        let before = pending(&q);
        let (chunk, data) = fill_period(&mut q, 2, 1, 100);
        let consumed = data.len().min(chunk.size as usize);
        let mut joined = data[..consumed].to_vec();
        joined.extend(pending(&q));
        assert_eq!(joined, before);
        played.extend(&data[..consumed]);
    }
    assert_eq!(played, all);
}

#[test]
fn request_is_cut_to_thirty_two_bits() {
    let mut q = queue(&[&[0; 8]]);
    // 2^32 + 2 bytes requested: cut to 32 bits it asks for 2 bytes
    let (chunk, data) = fill_period(&mut q, 2, (1u64 << 31) + 1, u32::MAX);
    assert_eq!(chunk.size, 2);
    assert_eq!(data.len(), 8);
    assert_eq!(q[0].pos, 2);
}

#[test]
fn basic_stream_description() {
    let info = basic_audio_info();
    assert_eq!(info.format, AudioFormat::S16);
    assert_eq!(info.rate, 44100);
    assert_eq!(info.flags, 0);
    assert_eq!(info.channels, 2);
    assert_eq!(info.position.len(), 64);
    assert_eq!(&info.position[..3], &[AudioChannel::FL, AudioChannel::FR, AudioChannel::Unknown]);
}

#[test]
fn basic_chunk_sizes() {
    assert_eq!(basic_chunk(2, 100, 4096), Chunk { offset: 0, stride: 2, size: 200 });
    assert_eq!(basic_chunk(2, 5000, 4096), Chunk { offset: 0, stride: 2, size: 4096 });
    assert_eq!(basic_chunk(2, 1u64 << 31, 4096), Chunk { offset: 0, stride: 2, size: 0 });
}

#[test]
fn only_front_buffer_is_read_or_moved() {
    let mut q = queue(&[&[1, 2, 3, 4, 5, 6], &[7, 8]]);
    q[1].pos = 1;
    let (chunk, data) = fill_period(&mut q, 2, 1, 100);
    assert_eq!(chunk.size, 2);
    assert_eq!(data, vec![1, 2, 3, 4, 5, 6]);
    assert_eq!(q.len(), 2);
    assert_eq!(q[0].pos, 2);
    assert_eq!(q[1].pos, 1);
    assert_eq!(q[1].bytes, vec![7, 8]);
}
