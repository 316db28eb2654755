# octopus_desktop

The decision logic of the Octopus desktop assistant (voice input, screen
capture and recording, the launcher, the settings window), written in Verus
and proved against its contracts.

- `src/` is the verified library. Each module keeps one concern:
  - push-to-talk key machine: `ptt`;
  - floating-window focus: `activation`, `focus_tracker`;
  - keystrokes and pasting: `keystroke`, `paste`, `input_source`,
    `finder_selection`;
  - the context around a selection: `context_text`, `surrounding`,
    `file_hint`, `document`, `doc_text`, `archive` (zip entries);
  - settings: `config`, `settings`, `runtime_config`, `settings_window`,
    `prompts`;
  - recording: `record`, `record_stop`, `record_hotkey`,
    `record_audio_probe`, `record_overlay`, `permission`, `sys_open`;
  - screenshots: `screenshot_session`, `screenshot_geometry`,
    `screenshot_result`, `scroll`;
  - the launcher search: `search`, `bookmarks`;
  - the result window and streaming recognition: `result_window`,
    `streaming`;
  - text helpers: `text`; the standard library's Unicode tables and
    `unicode-normalization`: `unicode`; JSON text read through
    `serde_json`: `json`.
- Laws that relate several operations are public proof functions named
  `law_*` next to the functions they speak of.
- `app/` is ordinary Rust around the library: processes, files, the settings
  window's JSON values, shared state between commands, and screen geometry in
  floating point.
- `tests/` exercises the library on concrete values.
