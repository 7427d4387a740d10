# lawn_defense

The rules of a single-lane lawn defence game (plants against waves of
zombies), written in Verus and verified against their contracts.

- `src/` is the verified library: the unit catalog and its checks, the lawn
  grid (the lane, the shooters' row below it and six elevated cells) and cell
  occupancy, the sun bank and card cooldowns, placement, the
  level definition, its validation and wave timeline, the game's flow between
  loading, playing and the two outcomes, projectile hit resolution (with
  the ice and fire peas' chill rules, the fire splash and torchwood ignition
  by kind), collision
  groups, the adaptive simulation rate, zombie and shooter behaviour, timers,
  the HUD's card states, input bindings and the command line. Timers are
  stepped by bevy's `Timer` through one trusted wrapper in `src/timer.rs`.
- `tests/` runs the library on concrete values.
- `app/` is the Bevy program around the library: rendering, input, physics,
  RON level files and everything that works on floating-point positions,
  sizes, health and times.

Durations in the library are whole nanoseconds; entities are their bits.
