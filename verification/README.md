# FluidVoice Windows, verified core

The logic of the FluidVoice Windows dictation app as a Verus library, with
the desktop shell around it.

- `src/` is the verified library: settings and their migration, the model
  catalog, history ordering and retention, hotkey shortcut parsing and
  registration decisions, enhancement requests and replies, the text
  insertion flow, the dictation flow, the checks before transcription and
  the assembly of a transcript from its segments, and microphone summaries.
- `tests/` exercises the library.
- `app/` is the Tauri shell: commands, file and network I/O, audio capture,
  the Windows hotkey thread, clipboard and keyboard input, and the
  floating-point audio work.
