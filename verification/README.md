# discord2

The voice client of Discord2 (a small Discord-like chat), split in two:

- `src/` is a Verus-verified library with everything the client decides:
  the session state machine and its UDP messages (`session`), the shaping
  of sample streams (`audio`), the sample queues between audio callbacks
  and the network (`queue`, over a `ringbuf` ring buffer wrapped in
  `ring`), device choice (`device`) and the device configuration file
  text (`config`, with `serde_json`).
- `app/` is the program around it: the Tauri commands, the `cpal` audio
  streams, Opus coding (`audiopus`), resampling (`samplerate`), sockets,
  files and the volume settings, which are floating point.

Samples cross into the library as the bit patterns of their `f32` values.
Tests are in `tests/`.
