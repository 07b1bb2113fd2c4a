# sayso

Push-to-talk dictation: hold a key, speak, release; the speech is transcribed
(OpenAI-style Whisper endpoint), optionally polished by a chat model, and pasted
at the cursor through the clipboard.

Layout:

- `src/` — the verified library (Verus). Text normalisation, WAV framing (through
  `hound`), peak/RMS and down-mixing of captured audio, hotkey name parsing and
  key-edge filtering, proxy and endpoint selection, the retry schedule, the
  transcript noise filter, the prompt texts, the settings model and the session
  state machine that decides every step of a dictation.
- `app/` — the program around it: microphone (cpal), key listener (CGEventTap on
  macOS, rdev elsewhere), HTTP requests (reqwest), clipboard and synthetic paste,
  the settings window and tray, the settings file (serde/toml).
- `tests/` — tests of the library on concrete values.
