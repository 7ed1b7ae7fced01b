# zcad

The verified core of a 2D CAD editor, written in Verus. Every function in
`src/` carries a contract that Verus proves; the few calls into other
crates (zstd, hex) and into `str::to_uppercase` / `String::push` go through
small wrappers whose contracts are stated, not proved.

## Layout

- `src/` — the library
  - `snap.rs` — snap kinds and the bit mask of enabled kinds
  - `text.rs` — character-level text handling: trimming, integer reading and
    writing, splitting, joining, line reading
  - `entity.rs`, `parametric.rs`, `constraint_system.rs`, `constraints.rs` —
    identifiers, constraint kinds and the constraint store with its indices
  - `spatial.rs` — grid index of entities by the cells they cover
  - `action.rs`, `actions.rs` — action history and the drawing / editing
    tool state machines
  - `command_registry.rs` — command names, short names and aliases
  - `ui_state.rs`, `ui_session.rs` — tools, the command-line vocabulary and
    the editor's interaction state
  - `canvas.rs`, `typed_input.rs`, `shortcuts.rs` — what clicks, typed data
    and keys do to the editor
  - `dxf_raw.rs`, `dxf_objects.rs` — DXF group-code text: reading, writing,
    layouts and viewports
  - `native.rs` — the native file header and frame around compressed data
  - `version_control.rs` — decisions of the Git-backed version control, as
    a state machine that asks its caller to run Git
  - `tile.rs`, `color.rs`, `input_parser.rs` — render tiles, AutoCAD colour
    indices, the syntax of typed coordinates
- `tests/` — tests run against the compiled library
- `app/` — a command-line program around the library: file and process
  I/O, serde, and an editing session on lines of text (`zcad edit`)

Floating-point values never enter `src/`: where the editor works with
coordinates, the library is generic over the point type, and the caller
measures what a decision needs (whether a click closes a polyline, whether
three points make an arc, the point a typed length reaches). In `app/`,
`editor.rs` does this for the editing session. DXF entity geometry and
on-screen drawing are not part of the program.
