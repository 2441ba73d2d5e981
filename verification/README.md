# crusade_roguelite

The rules of a crusade-themed survival roguelite, written in Verus with
their contracts proved.

- `src/` is the verified library: unit identities and lineages (`unit_line`,
  `model`), the run-modal reducer and run hotkeys (`game_core`), inventory
  slots, chests, gear sources and item rolls (`inventory`), formations, the
  skill bar and lane assignment (`formation`), enemy waves, tier mixes, role
  picking and spawn hashes (`enemies`), the enemies a spawning batch brings
  (`enemy_batch`), the wave-to-wave progress of a run (`wave_progress`),
  pickups and the gold-pack cap (`drops`), config vocabularies and
  validation (`data`, `heroes`, `archive`), and small rules of combat,
  collision, morale thresholds, target choice and map decoration.  Public
  proof functions (`lemma_*`) state the laws that tie the operations
  together.
- `tests/` runs the library on concrete values.
- `app/` is ordinary Rust around the library: JSON config loading with
  serde, the real-valued tuning files and their checks, gear effects, and
  the floating-point geometry and tuning formulas of the game, which call
  the library for every discrete decision.
