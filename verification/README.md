# transcription-service

An audio transcription service: audio files are uploaded over HTTP, decoded
to 16 kHz mono samples, transcribed by a local Whisper model, and every
transcription is kept in SQLite with its status
(PENDING → PROCESSING → COMPLETED / FAILED).

## Layout

- `src/` — the verified library (Verus):
  - `status.rs` — the lifecycle status, its text, its parsing, the lifecycle moves;
  - `ident.rs` — UUID identifiers: their text and parsing (through the `uuid` crate);
  - `transcription.rs` — the record, the row the store keeps, reading rows back;
  - `error.rs` — decoding/transcription errors and their messages;
  - `wav.rs` — container detection by magic bytes, the RIFF/WAVE chunk walk
    and header checks, integer PCM sample values;
  - `transcriber.rs` — model path choice, thread count, joining recognised segments;
  - `convert.rs` — the `ffmpeg` command used for non-WAV containers;
  - `store.rs` — the SQLite URL of the database file;
  - `table.rs` — what the store's writes leave in the table and what a lookup
    reads back, with the laws on what a run leaves behind;
  - `workflow.rs` — the transcription use case as a state machine, with its
    laws (lifecycle order of writes, what each answer implies);
  - `http.rs` — upload form reading and the replies of each endpoint;
  - `text.rs` — string helpers (`str::trim`, decimal text, ...).
- `app/` — the program around it: the axum server, SQLx storage, the Whisper
  model, ffmpeg, and the floating-point sample conversion and resampling.
- `tests/` — tests of the library.
