# whispr

Verified core of Whispr, a push-to-talk dictation app that can have a local
Ollama model clean up each transcription.

- `src/text.rs` – Unicode whitespace, ASCII punctuation, trimming, decimal numbers.
- `src/json.rs` – JSON string literals as serde_json writes them (the one trusted call).
- `src/postprocess.rs` – post-processing settings, the generate request body,
  failure messages, and what a reply turns into.
- `src/dictation.rs` – the text assembled from recognised segments and the
  push-to-talk session: one step per outside event, with laws about refused
  presses, one capture at a time, the permit coming back after every release,
  and whole dictations.
- `src/error.rs` – the app's error kinds and their messages.
- `app/` – HTTP calls to Ollama (ureq), serde copies of the library types and a
  console front end.
