# bevy_ecs_animations

Timeline management for procedural animation in Bevy.

- `src/` is the verified library: the lifecycle of an animation (repetition
  countdown, pausing, finishing, the actions owed after each tick, the ticker's
  decision), the data of the curve combinators with the sequence's choice of
  segment, and the plugin type of the older interface. `src/laws.rs` holds the
  properties that span several operations.
- `app/` is the Bevy integration: plugins, systems, observers, commands, the
  controller system parameter, the time-keeping on `f32` seconds and the
  `Curve` impls of the combinators.
- `tests/` exercises the library on concrete values.
