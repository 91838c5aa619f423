# rmp

The verified core of a terminal media player that plays through mpv,
filters its queue by tags and runs as a background daemon with a TUI client.

- `src/` (Verus): key bindings and the key map (`config`, `keymap`), the text
  of the panes (`panes`, `model`, `text`), tag handling (`tags`), the daemon's
  command and event state machine (`player`) and the interface's decisions
  (`ui`).
- `app/` (plain Rust): reading the environment and `config.toml`, converting
  terminal key events, and drawing the panes with ratatui.
- `tests/`: tests of the library on concrete values.
