# game

The logic of a small real-time strategy client that runs in the browser,
written in Verus. The functions of the library carry contracts that Verus
proves, except the few that call outside crates or std: their contracts are
trusted, not proved. These are

- `random::random_u8`, `random_u32`, `random_i16`, `random_i32`, which draw
  from `fastrand` (what is trusted: the number falls in the range asked);
- `TextureTable` in `assets::textures` with `new`, `len`, `insert` and `get`,
  which keep the textures in an `FnvHashMap` (what is trusted: they act on
  the contents as a map does);
- `assets::fonts::graphemes_of`, which splits a text with
  `unicode-segmentation` (what is trusted: the clusters depend on the text
  alone, are not empty and join back into it);
- `assets::index::debug_quoted`, which writes a text as `Debug` does (what is
  trusted: the result depends on the text alone).

Layout:

- `src/` — the verified library:
  - `text`, `error`: character helpers and chained errors with their text.
  - `inputs`, `flags`: button states, the mouse and keyboard state of a
    frame, and the flags that ask for work at the next output.
  - `gui`: the component tree built frame by frame (well-formedness of the
    tree, roots, children, dirty components), resources that can change,
    and the layout enums.
  - `actions`: the action managers (queued actions that follow their
    parent, conflicting actions that replace each other) and the steps of
    the actions.
  - `behaviour`: structures (damage, building, gold mines), combat steps and
    the steps of the pawn behaviours.
  - `pathfinding`: the pool of paths.
  - `output`: draw batches, the gui mesh and its update, terrain chunk
    updates and the cells they send.
  - `assets`: the csv reader, sprite sheets, the asset index, textures and
    font atlases.
  - `random`: random draws and the ranges they fall in.
- `tests/` — tests of the library on concrete values.
- `app/` — the WebAssembly entry points, the clock, asset uploads and what
  is computed with floats (sprite sheet coordinates, text metrics, gui
  layout).
