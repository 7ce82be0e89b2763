//! Bookkeeping core of a physics engine front end built on rapier: the
//! planar and spatial worlds, the pools of body handles, the body counts
//! reported after each step, the window of recent step timings, and the grid
//! on which the benchmark places its bodies.

pub mod engine;
pub mod history;
pub mod layout;
pub mod planar;
pub mod spatial;

pub use engine::{Dimension, EngineError, PhysicsCounts, PhysicsEngine, PooledHandle};
pub use history::{StepHistory, STEP_HISTORY_LIMIT};
pub use layout::{benchmark_grid_cell, BENCHMARK_GRID_COLUMNS};
pub use planar::PlanarWorld;
pub use spatial::SpatialWorld;
