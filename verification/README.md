# aui

The view models and decisions of an agent-tooling component library,
written in Verus: every component takes data in and hands intents out, and
each decision it makes — which rows a sidebar grouping shows, which line a
session row draws, what a hover card says, how a menu or the settings dialog
moves its keyboard focus, which buttons a screen offers — is a function with
a contract that Verus proves.

## Layout

- `src/` — the verified library.
  - `nav/` — session summaries, the sidebar and its three groupings
    flattened into rows (and where a date grouping places each session),
    the collapsed rail, session rows, the hover detail
    card, role sections, the view-options menu, the folder drop card.
  - `composer/` — the attachment rows and drop overlay, the composer
    card, its chip pickers, the `/` and `@`
    menus, the queue strip.
  - `overlay/` — the command palette, the settings dialog and its keyboard,
    the modal dialog, menu anchoring.
  - `data/` — buttons, chips, pills, the context-window meter.
  - `feedback/` — banners and toasts.
  - `screens/` — the sign-in screen.
  - `keys.rs`, `assets.rs`, `ink.rs`, `text.rs` — the default keymap, the
    layered asset source, palette roles, and character-level text helpers.
- `tests/` — tests of the library on concrete values.
- `app/` — the floating-point side a renderer needs (geometry, fractions,
  the percentage label, upload progress) and the disk check behind a folder
  drop, outside the verified library.
