# Stellar Dominion

The rules of a real-time space empire game: planets with stores, workers and
buildings; factions; ships that carry cargo and fight; construction queues; population
growth and migration; an event bus that connects the systems; saving and loading; and
the state behind the game's panels, menus and input handling.

- `src/` is the library. Every function in it is verified with Verus against its
  `requires`/`ensures` contract; `src/laws.rs` states and proves properties that span
  several operations.
- `tests/` runs the library on concrete games.
- `app/` is the program around the library: the window and drawing (macroquad),
  floating-point orbits, motion and combat strength, the clock, and save files on disk
  (serde_json).
