# cca — Colour Contrast Analyser, verified core

The colour logic of a colour-contrast analyser, written in Verus and proved against its
contracts:

- `common` — `#RRGGBB` formatting and reading back, labelled codes, and the black/white
  text decision (BT.601 luminance above 128, computed exactly in thousandths).
- `color_names` — the CSS named colours and the nearest/exact name lookups.
- `picker` — the state machine of the full-screen picker: cursor sampling from a BGRA
  screen capture, choosing colours (single or continue mode), zoom and capture size,
  key and wheel handling, and the labels of the magnifier.
- `color_picker` — the stand-alone picker program's argument handling, label and report.
- `mac_keys` — the key map of the macOS picker.
- `store` — the foreground/background colour store.
- `icc` — the colour profiles each platform offers and the profile selection.
- `menu` — menu identifiers of colour profiles and the way back to the profile.
- `text` — string primitives used by the above.

`app/` holds the program around the library: the command-line picker, the Win32 window that
drives the picker state machine, the shared state behind locks, and serializable copies of
the library's types.
