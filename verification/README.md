# vhost_device_backends

A Verus-verified library with the logic of two vhost-user device backends:

- `gpu`: the GPU backend's configuration (socket path and renderer mode).
- `pcm`: PCM stream parameters and how they map to a PipeWire raw audio
  description (speaker positions, sample formats, rates, node latency).
- `playback`: the per-period playback step that moves guest PCM bytes into
  PipeWire buffers, proved to keep the byte stream in order without loss.
- `control`: the backend's answers to SET_PARAMETERS, PREPARE, RELEASE,
  START and STOP, and the set of streams that have a PipeWire stream.
- `spa`, `virtio_sound`, `error`: vocabulary and constants.

`app/` holds the host-side glue: PipeWire objects and callbacks, guest memory
access, and the command-line copy of the GPU mode.
