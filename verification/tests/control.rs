use std::collections::VecDeque;
use vhost_device_backends::control::{set_parameters, StreamAction, StreamRegistry};
use vhost_device_backends::playback::PcmBuffer;
use vhost_device_backends::spa::{AudioFormat, Direction};
use vhost_device_backends::virtio_sound::{
    VIRTIO_SND_D_INPUT, VIRTIO_SND_D_OUTPUT, VIRTIO_SND_PCM_FMT_U8, VIRTIO_SND_PCM_RATE_48000,
    VIRTIO_SND_S_BAD_MSG, VIRTIO_SND_S_NOT_SUPP, VIRTIO_SND_S_OK,
};
use vhost_device_backends::{Error, PCMParams};

fn request() -> PCMParams {
    PCMParams {
        features: 1,
        buffer_bytes: 8192,
        period_bytes: 2048,
        channels: 6,
        format: VIRTIO_SND_PCM_FMT_U8,
        rate: VIRTIO_SND_PCM_RATE_48000,
    }
}

fn fields(p: &PCMParams) -> (u32, u32, u32, u8, u8, u8) {
    (p.features, p.buffer_bytes, p.period_bytes, p.channels, p.format, p.rate)
}

#[test]
fn set_parameters_stores_request() {
    let mut params = PCMParams::default();
    let mut code = VIRTIO_SND_S_OK;
    set_parameters(&mut params, &request(), true, true, true, &mut code);
    assert_eq!(fields(&params), fields(&request()));
    assert_eq!(code, VIRTIO_SND_S_OK);
}

#[test]
fn set_parameters_refused_by_state() {
    let mut params = PCMParams::default();
    let mut code = VIRTIO_SND_S_OK;
    set_parameters(&mut params, &request(), false, true, true, &mut code);
    assert_eq!(code, VIRTIO_SND_S_BAD_MSG);
    assert_eq!(fields(&params), (0, 0, 0, 0, 0, 0));
}

#[test]
fn set_parameters_unsupported() {
    let mut params = PCMParams::default();
    let mut code = VIRTIO_SND_S_OK;
    set_parameters(&mut params, &request(), true, false, true, &mut code);
    assert_eq!(code, VIRTIO_SND_S_NOT_SUPP);
    assert_eq!(fields(&params), (0, 0, 0, 0, 0, 0));
    let mut code = VIRTIO_SND_S_OK;
    set_parameters(&mut params, &request(), true, true, false, &mut code);
    assert_eq!(code, VIRTIO_SND_S_NOT_SUPP);
    assert_eq!(fields(&params), (0, 0, 0, 0, 0, 0));
}

#[test]
fn prepare_plans_stream() {
    let mut reg = StreamRegistry::new();
    match reg.prepare(3, true, &request(), VIRTIO_SND_D_OUTPUT) {
        Ok(StreamAction::Connect(plan)) => {
            assert_eq!(plan.info.format, AudioFormat::U8);
            assert_eq!(plan.info.rate, 48000);
            assert_eq!(plan.info.channels, 6);
            assert_eq!(plan.negotiated_format, AudioFormat::S16Le);
            assert_eq!(plan.latency_samples, 360);
            assert_eq!(plan.frame_size, 12);
            assert_eq!(plan.direction, Direction::Output);
        }
        other => panic!("unexpected {:?}", other),
    }
    assert!(reg.contains(3));
    assert!(!reg.contains(2));
}

#[test]
fn prepare_capture_direction() {
    let mut reg = StreamRegistry::new();
    let mut req = request();
    req.channels = 1;
    match reg.prepare(0, true, &req, VIRTIO_SND_D_INPUT) {
        Ok(StreamAction::Connect(plan)) => assert_eq!(plan.direction, Direction::Input),
        other => panic!("unexpected {:?}", other),
    }
}

#[test]
fn prepare_refused_or_unsupported() {
    let mut reg = StreamRegistry::new();
    assert!(matches!(reg.prepare(1, false, &request(), VIRTIO_SND_D_OUTPUT), Ok(StreamAction::Nothing)));
    assert!(!reg.contains(1));
    let mut req = request();
    req.channels = 7;
    assert!(matches!(
        reg.prepare(1, true, &req, VIRTIO_SND_D_OUTPUT),
        Err(Error::ChannelNotSupported)
    ));
    assert!(!reg.contains(1));
}

#[test]
fn start_stop_release_lifecycle() {
    let mut reg = StreamRegistry::new();
    assert!(matches!(reg.start(0, true), Err(Error::StreamWithIdNotFound(0))));
    reg.prepare(0, true, &request(), VIRTIO_SND_D_OUTPUT).unwrap();
    assert!(matches!(reg.start(0, true), Ok(StreamAction::SetActive(true))));
    assert!(matches!(reg.stop(0, true), Ok(StreamAction::SetActive(false))));
    assert!(matches!(reg.start(0, false), Ok(StreamAction::Nothing)));
    assert!(matches!(reg.stop(0, false), Ok(StreamAction::Nothing)));

    let mut bufs: VecDeque<PcmBuffer> = VecDeque::new();
    bufs.push_back(PcmBuffer { bytes: vec![1, 2, 3], pos: 1 });
    let mut code = VIRTIO_SND_S_OK;
    assert!(matches!(reg.release(0, true, &mut bufs, &mut code), Ok(StreamAction::Disconnect)));
    assert!(bufs.is_empty());
    assert_eq!(code, VIRTIO_SND_S_OK);
    assert!(!reg.contains(0));
    assert!(matches!(reg.start(0, true), Err(Error::StreamWithIdNotFound(0))));
    assert!(matches!(reg.stop(0, true), Err(Error::StreamWithIdNotFound(0))));
}

#[test]
fn release_refused_or_missing() {
    let mut reg = StreamRegistry::new();
    reg.prepare(5, true, &request(), VIRTIO_SND_D_OUTPUT).unwrap();
    let mut bufs: VecDeque<PcmBuffer> = VecDeque::new();
    bufs.push_back(PcmBuffer { bytes: vec![1], pos: 0 });
    let mut code = VIRTIO_SND_S_OK;
    assert!(matches!(reg.release(5, false, &mut bufs, &mut code), Ok(StreamAction::Nothing)));
    assert_eq!(code, VIRTIO_SND_S_BAD_MSG);
    assert_eq!(bufs.len(), 1);
    assert!(reg.contains(5));

    let mut code = VIRTIO_SND_S_OK;
    assert!(matches!(
        reg.release(4, true, &mut bufs, &mut code),
        Err(Error::StreamWithIdNotFound(4))
    ));
    assert_eq!(code, VIRTIO_SND_S_OK);
    assert_eq!(bufs.len(), 1);
    assert!(reg.contains(5));
}

#[test]
fn release_leaves_other_streams() {
    let mut reg = StreamRegistry::new();
    reg.prepare(0, true, &request(), VIRTIO_SND_D_OUTPUT).unwrap();
    reg.prepare(1, true, &request(), VIRTIO_SND_D_OUTPUT).unwrap();
    let mut bufs: VecDeque<PcmBuffer> = VecDeque::new();
    let mut code = VIRTIO_SND_S_OK;
    reg.release(0, true, &mut bufs, &mut code).unwrap();
    assert!(!reg.contains(0));
    assert!(reg.contains(1));
    assert!(matches!(reg.start(1, true), Ok(StreamAction::SetActive(true))));
    assert!(matches!(
        reg.release(0, true, &mut bufs, &mut code),
        Err(Error::StreamWithIdNotFound(0))
    ));
}
