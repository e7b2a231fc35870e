# voicetyping

A tray tool that records speech on a hotkey, turns it into text with a
speech-recognition service, has a language model clean it up (or translate
it), and types the result into the focused window.

- `src/` is the verified library (Verus): settings and their rules
  (`config`, `commands`), hotkey names and the press latch (`hotkey`), the
  recording cycle as a state machine (`controller`), the language-model
  instructions and the vocabulary hint (`prompt`), the reading of service
  replies (`reply`), the pipeline run and its fallback decisions (`pipeline`),
  the upload size limit (`recording`), the
  bounded history (`history`) and the text helpers they share (`text`).
- `app/` is the program around it: Tauri windows and tray, microphone capture
  and WAV encoding, keyboard listening, HTTP calls, files on disk, typing.
- `tests/` runs the library.
