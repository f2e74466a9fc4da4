# openkdsim

The discrete game logic of a katamari simulation, verified with Verus: how controller
input becomes the prince's gachas, spins, boosts, huffs, flips, view modes and turns;
which animation the prince plays; the katamari's contact, climbing, vaulting, braking,
incline and stuckness state; the camera modes; and the list of props.

Layout:

- `src/` — the verified library. Each module states its behavior as `requires`/`ensures`
  contracts over spec functions, and proves the laws that relate its operations
  (the `law_*` proof functions).
  - `input.rs`, `camera.rs`, `flags.rs`, `mission.rs`: controller input, camera modes,
    katamari physics and hit flags, game modes and tutorial moves.
  - `prince.rs`: gachas, spin and boost, huffing, boost recharge, flips, view modes and
    the turn decision.
  - `animation.rs`: the choice of the prince's animation and its debounced playback.
  - `katamari.rs`: surface contacts, climbing, vaulting, braking, incline movement,
    airborne timers, the decisions of wall and ground impacts, and being stuck between
    walls.
  - `history.rs`: the recent surface contacts, kept in a `circular_queue::CircularQueue`.
  - `props.rs`: props, their status bytes, the areas in which they are intangible, and
    the prop list.
  - `player.rs`: the order of a player's update steps.
- `tests/` — tests on concrete values.
- `app/` — the floating-point side (stick axes, prince parameters, the acceleration
  spline) and serializable copies of the library's types.

Comparisons of floating-point quantities are made by the caller and handed to the
library as `bool` values; the library decides everything else.
