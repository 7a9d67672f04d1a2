# kz_dsp

Verified core of the KZ Castor IEM DSP daemon (`iem-dspd`) and its control
panel (`iem-ui`).

- `src/` — the library, verified with Verus:
  - `frame.rs`: the 4-byte little-endian length-prefixed IPC framing, the
    1 MiB frame limit, and the encode/decode round-trip laws;
  - `config.rs`: the configuration model (bands, crossfeed, HRTF, spatial
    mode, commands, responses), generic over the sample type;
  - `ipc.rs`: what each command does to the running configuration and
    whether it is written to disk, how the client reads replies, and the
    laws of the command protocol;
  - `delay.rs`: the ring-buffer delay line behind the crossfeed, ITD and
    reverb paths, with the law that it delays by exactly its delay;
  - `engine.rs`: which EQ slots filter and which spatial stage runs.
- `app/` — the programs: the daemon (socket server, disk, PipeWire, the
  floating-point filters) and the egui control panel (`ui` argument).
- `tests/` — tests of the library on concrete values.
