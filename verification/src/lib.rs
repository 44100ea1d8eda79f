//! A first-person character-controller core: the per-tick movement solver,
//! probe planning, input mapping and render projection, over fixed-point
//! scalars so that every step is deterministic and provable.

pub mod config;
pub mod fix;
pub mod input;
pub mod inventory;
pub mod laws;
pub mod shape;
pub mod probe;
pub mod render;
pub mod solver;
pub mod state;
pub mod trig;
pub mod vec3;
