# golf

The rules of a small 3D golf game, verified with Verus, and the game around them.

- `src/` is the verified library:
  - `control`: the stages of a shot (aim, power gauge, precision gauge, swing),
    what a click and a simulation step do to them, the delayed confirmation, and
    which aiming aids are drawn;
  - `progress`: shots, lost balls, fatigue (a confirmation delay of 200 ms per
    shot, at most 1 s, cleared when the ball is lost), the finish flag and the
    run clock;
  - `clock`: the split of the run time into minutes, seconds and milliseconds;
  - `input`: what each window event does;
  - `mesh`: expansion of indexed vertex data and grouping into triangles;
  - `id`: identifiers handed out in increasing order.
- `app/` is the game itself on the `geng` engine: loading, rendering, the ball
  physics and the camera, all of which work on floating-point values, and which
  ask the library for every discrete decision.
- `tests/` runs the library on concrete values.
