# keasyditor-core

An editing model for KDE Plasma themes — Klassy window decorations and
Kvantum widget themes — written in Verus, with its behaviour stated in
`requires` / `ensures` contracts and proved.

## Layout

- `src/` — the verified library
  - `text`, `num`, `color`, `strmap`: strings, numbers, colours and
    small ordered maps, each with a specification of what it computes
  - `ini`: the INI parser and writer, with round-trip laws
  - `models`: Klassy configurations and presets, Kvantum configurations,
    with save/load laws
  - `svg`: colour edits on SVG elements
  - `services`: the decisions of file, process, palette, preview and
    wallpaper services; the outside work itself is named, not done, here
  - `undo_redo`, `editor`: the undo history and editing sessions, with
    laws relating undo, redo, loading and saving
  - `pages`, `kvantum_page`, `settings_page`: the editor's pages as
    state machines from message to new state and the outside work to do
  - `ui_bindings`, `settings`, `locale`, `paths`
- `tests/` — tests of the library on concrete values
- `app/` — a command-line program that does the outside work (files,
  processes, floating-point colour work) and drives the library
