# hackceler8

The game logic of a side-scrolling action game for the Sega Genesis, written
in Verus: each function states what it does in `requires`/`ensures`
contracts over mathematical models (sequences, maps, integers), and Verus
proves that the code meets them.

Layout:

* `src/` is the verified library. The hardware (VDP planes and sprites,
  controllers, the VRAM tile allocator) is modeled as plain in-memory state in
  `vdp.rs` and `resource_state.rs`; the game objects, their per-frame rules,
  the stage bookkeeping (`map.rs`, `stage_load.rs`), the pause menu, the
  stage-select screen and the game-level state machine (`game.rs`) work on
  that model. `stage_convert.rs` turns a stage drawn in the Tiled editor
  into the data the game is built from.
* The fixed-capacity object lists are `heapless::Vec`s, used through a few
  wrappers whose contracts follow that crate's documentation.
* `tests/` holds the tests, run against the compiled library.
* `app/` reads Tiled maps from disk and renders the generated stage source
  with a template; it is ordinary Rust around the library.
* Laws of the library are the public `law_*` proof functions.
