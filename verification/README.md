# saab_audio

A verified library for an audio mixing console that streams PCM audio from a
capture server to playback clients over UDP and is controlled over WebSocket.

`src/` holds the verified parts:

- `wire`, `protocol`: the 28-byte big-endian datagram header and the
  byte-order primitives it is built from.
- `datagram`: a whole audio datagram (header plus little-endian samples), as
  the sender writes it and the receiver reads it.
- `audio_buffer`, `error`: interleaved audio blocks; samples are held as the
  bit patterns of their `f32` values.
- `capture`: turning captured multi-channel input into stereo blocks.
- `mute`, `sequence`: the mixer's mute/dim switch, its ports, and the
  packet counter.
- `receiver`, `jitter`: the UDP receiver's run flag and what it does with
  each datagram, and the ring buffer between it and the audio output (what
  the output plays when the ring runs dry).
- `config`, `setup`, `discovery`, `cli`: the tool's configuration and paths,
  the wizard's defaults, reading `adb devices`, and the command line grammar.
- `pidfile`: the text of a service's pid file, written and read back.
- `console`, `link`: the decisions of the studio console and of both ends of
  the WebSocket control link, as functions from state and event to next state
  and action; the programs in `app/` perform the actions.

`app/` holds the programs around it: file, network and audio device I/O, the
floating point signal processing (gain, smoothing, metering), JSON messages and
the studio console window.
