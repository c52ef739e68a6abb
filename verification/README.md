# screeps_combat_engine

The combat-mechanism layer of a Screeps combat micro-simulator, written in Verus.

- `src/constants.rs` — combat constants (per-part action powers, ranges, lifetimes, tower costs).
- `src/body.rs` — the body model: per-part 100-hit pools filled from the back (the front parts
  die first) and boost-aware action power, with the laws the model keeps: the pools partition the
  body's hits, parts die front to back, power is linear in the base power, and damage never
  raises power.
- `src/body_combat.rs` — the `SimBodyCombat` trait: attack, ranged attack, heal, ranged heal and
  dismantle power of a body.
- `src/state.rs` — structures, towers, controllers and the combat world, over `screeps::Position`.
- `app/` — the floating-point part (TOUGH damage reduction, range falloff constants) and the
  conversions between `screeps::Part` and the library's `PartType`.
- `tests/` — tests of the library on concrete bodies and world values.
