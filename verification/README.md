# lander

A small space-landing game: fly between procedurally placed planets, land
gently to refuel, avoid asteroids.

- `src/` is the verified library (Verus):
  - `rng` — the linear congruential generator that seeds the world;
  - `raster` — sprites drawn pixel by pixel into `image::RgbaImage`
    buffers (solid colours, gauges, buttons, nearest-neighbour resampling);
  - `flight` — the per-tick decisions of a flight: landing and bouncing,
    the landing ring and flash, the low-fuel warning, death, controls.
- `app/` is the game around it: scenes, floating-point sprites and motion,
  and the engine loop.
- `tests/` exercises the library on concrete values.
