# rapier_wasm

A physics engine front end for JavaScript built on rapier2d and rapier3d.

- `src/` is the verified library (Verus): the planar and spatial worlds and
  the trusted items through which they reach rapier (`planar.rs`,
  `spatial.rs`), the engine's bookkeeping of worlds, handle pools and step
  counts with its laws (`engine.rs`), the window of recent step timings
  (`history.rs`) and the benchmark's body grid (`layout.rs`).
- `app/` is the JavaScript-facing layer: vector helpers and configuration
  records in floating point, the simulation step, timing, WebGPU start-up and
  the benchmark driver.
- `tests/` exercises the library on concrete values.
