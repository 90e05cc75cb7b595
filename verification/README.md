# dwarf_game

An isometric dwarf-colony game. The crate is split in two:

- `src/` is the game logic, written and proved with Verus: map placement and
  picking for the four view directions (`geometry`, `resources`), the flat
  single-level map (`flat_map`), terrain sprites and streamed chunks
  (`terrain`), the per-frame decisions of the systems (`systems`), the
  menu / loading / running screens (`state`), sprite-sheet loading
  (`sprite`), render plugin settings (`render`), shared records
  (`components`) and the player's facing (`entity`).
- `app/` is the program around it: the engine (amethyst) setup, the ECS
  systems and states that read the world, call the library and write the
  world back, the draw passes, and the configuration file types.

Screen coordinates are kept exact in the library by doubling them
(`Placement::x2`, `Placement::y2`); `app/` halves them into floating-point
transforms and adds the per-object depth offsets.

The tests under `tests/` run the library.
