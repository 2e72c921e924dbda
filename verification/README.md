# ashframe_sim

The simulation behind ASHFRAME, a third-person mech action game: Operation
ASHEN YARD's skirmisher screen, siege pair and Patriarch, stepped at a fixed
120 Hz with no renderer attached.

## Layout

- `src/` — the verified core, written in Verus. Sides, archetypes, weapons and
  mission phases with their labels; the xorshift32 generator, and the item
  its `pick` lands on, through the same roundings as the float code; the
  mission's phase machine, wave orders and statistics; the player's
  weapons (rounds, reloads, volleys, the blade's phases, repair charges), its
  movement modes and its energy gauge; each enemy archetype's tactics (bursts,
  warnings, salvos, the boss's slam and dash); the rules of a hit (when it
  lands, staggers, destroys); the enemy roster's ids and reuse; the
  projectile pool's slot allocation; the target lock, its grace window and
  the wheel's cycle; the log of event kinds; every whole-valued gameplay
  number. Each function carries a contract, and the library's promises — no
  two units share an id, a finished mission stays finished, a saturated pool
  recycles rather than refuses, a nonzero seed never reaches the dead state,
  a shot spends exactly one round, a staggered unit does not act, a stagger
  is not retriggered — are stated and proved as lemmas beside the code they
  are about.
- `app/` — the float world around it: vectors, collision, the arena's layout,
  movement, steering, projectiles in flight, damage amounts and the camera.
  All of it is `f32` arithmetic: it keeps the countdowns and distances,
  reports what they say to `src/`, and carries out what `src/` decides.
- `tests/` — scenarios for the verified core.
