# KickForge

A hardstyle / hardcore kick synthesizer plug-in (VST3 / CLAP).

- `src/` is the verified library: the parameter enumerations and their
  indices, the noise generators' xorshift state, the FX rack routing, the
  layer solo rules, the body hold, waveform capture and editor refresh
  counters, the editor bridge's parameter keys, and the messages, scripts and
  replies exchanged with the web editor. Every function carries a contract,
  and the library's laws are proof functions beside the code they speak of.
- `tests/` runs the library on concrete values.
- `app/` is the plug-in around it: the floating-point signal path, the
  nih-plug parameters and presets, the web view, its threads and its local
  state server.
