# synth_fm_rs

A DX7-style FM synthesizer whose decision logic and data formats are a
Verus-verified library, with the signal processing and device I/O around it.

## Layout

- `src/` — the verified library:
  - `sysex.rs` — DX7 single-voice (VCED) and 32-voice bank (VMEM) SysEx:
    parsing, encoding, checksum; a voice written and read back comes back
    as stored.
  - `midi_handler.rs` — what each MIDI message asks the synth to do, under a
    channel filter; MIDI note names.
  - `fm_synth.rs` — voice allocation (`NoteRouter`: poly with oldest-voice
    stealing, mono and mono-legato with fallback to the previous held key,
    sustain, panic, transpose) and the integer engine settings
    (`EngineControls`).
  - `algorithms.rs` — the routing tables and names of the 32 algorithms.
  - `algorithm_migration.rs`, `algorithm_matrix.rs` — the algorithm library
    as carrier lists and edges, and the carrier masks, link matrices and
    edge lists derived from them.
  - `preset_loader.rs`, `text.rs` — note names, transpose, breakpoint and LFO
    wave names as patch files write them.
  - `lock_free.rs` — the triple buffer that carries state snapshots; every
    read gives the latest value written.
  - `preset_browser.rs` — the preset list: collections in first-seen order,
    and the presets a collection choice and a name search keep.
  - `pitch_eg.rs`, `operator.rs`, `lfo.rs`, `state_snapshot.rs`,
    `command_queue.rs`, `keyboard.rs` — tables,
    enumerations and small conversions.
- `tests/` — tests of the library.
- `app/` — the program: audio output (cpal), MIDI input (midir), patch files
  (serde_json) and the floating-point engine (operators, envelopes, LFO,
  effects), which carries out the voice actions the library decides.
