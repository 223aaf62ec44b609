# sorahk

The configuration, localisation and settings logic of Sorahk, an input
remapping tool (turbo keys, key combinations, input sequences), written in
Verus with its behaviour stated as contracts and proved.

## Layout

- `src/` — the verified library
  - `config.rs` — configuration types, defaults, the rules applied on load
  - `config_text.rs` — the commented text of the configuration file
  - `presets.rs` — named presets of mappings and the active preset
  - `editing.rs`, `draft.rs` — edits made in the settings dialog and new
    mappings composed from a draft
  - `devices.rs` — HID device identifiers, baselines and API preferences
  - `hotkey.rs` — the toggle hotkey: reading it and detecting its presses
  - `notify.rs` — notification XML, UTF-16 buffers and tray menu decisions
  - `i18n/` — languages and the texts of the user interface
  - `numbers.rs`, `text.rs` — reading and writing numbers and texts
  - `small_lists.rs` — inline lists backed by `smallvec`
- `tests/` — tests of the library
- `app/` — the program: reads and writes `Config.toml` with `toml` and
  `serde`, and hands the values to the library
