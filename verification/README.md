# romescribe

A push-to-talk dictation tool for the macOS menu bar: hold (or tap) a global
hotkey to record, and the transcription is typed into the focused text field.

- `src/` is the verified library (Verus): hotkey parsing, the model catalog,
  settings and file locations, the AppleScript used for text insertion, and
  the decisions of the recording, hotkey and download flows, with their laws
  in `src/laws.rs` and beside the functions they concern.
- `tests/` runs the library on concrete values.
- `app/` is the desktop shell (Tauri, cpal, reqwest, serde): windows, tray,
  audio capture, downloads and files, which hands plain values to the library.
