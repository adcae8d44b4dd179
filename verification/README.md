# vox

Voice pipeline toolkit: voice-activity segmentation, speech-to-text and
text-to-speech model management, a local HTTP/WebSocket server protocol, and
conversation memory for a voice assistant.

The library under `src/` is written in Verus: every function carries a
contract, and the properties that relate several operations are stated as
proof functions (`lemma_*`).

Layout:

- `src/text.rs` — character-level string helpers with exact specifications
  (whitespace, trimming, splitting, joining, replacing, number parsing).
- `src/audio/`, `src/vad/` — the ring buffer of recent samples and the
  speech segmenter that turns per-frame speech decisions into utterances.
- `src/tts/`, `src/stt/` — voice catalogues, voice and variant parsing,
  sentence splitting for streamed synthesis, model file validation.
- `src/streaming_chat.rs` — framing of streamed (NDJSON) chat replies into
  sentences.
- `src/server/` — wire types, request counters, error statuses, and the
  per-connection decisions of the WebSocket endpoints (frame assembly,
  live-talk turns and their progress, listen sessions, streamed speech).
- `src/capabilities/`, `src/system_profile.rs` — hardware and model
  inventory, and the capability report injected into prompts.
- `src/intelligence/` — the semantic response cache (normalization,
  time-to-live, least-recently-used eviction), user preferences and topic
  counting, and voice-memory greetings.
- `src/diarization/` — speaker-embedding settings, checksum verification,
  embedding storage layout, the roster of enrolled speakers, and speaker
  enrollment numbering.
- `src/model_cache.rs` — cache of loaded models with LRU eviction.
- `src/engine.rs` — the listening pipeline's decisions: whole VAD frames,
  streaming sessions, one-piece fallback, and which transcripts are handed on.
- `app/` — the command-line program: argument handling, downloads, file and
  network I/O, configuration wizard.
- `tests/` — tests of the library.
