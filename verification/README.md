# beehive

The decision logic of a small bee colony simulation, verified with Verus.

- `src/animation.rs`: sprite animations that loop or run back and forth
  (ping-pong) over a run of frames, with the laws that keep a sprite in its run
  and give each kind of animation its period.
- `src/unit.rs`: the purposes that drive a unit, and a unit's plan.
- `src/bee.rs`: how a bee picks a new purpose, sets up the behaviour for it,
  and how a new bee is named and joins a colony.
- `src/gathering.rs`: the resource-gathering routine as a state machine from
  events (what the bee measured) to requests (what it needs next).
- `src/skills.rs`: a unit's skills, held in `bevy_utils`'s hash set.
- `app/`: the Bevy game around the library: ECS systems, spawning, the world
  generator, and the floating-point inventory and movement arithmetic.
