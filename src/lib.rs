//! The discrete core of a small real-time 3D game: the physics state
//! machine of its entities, the set of held keys and what they command each
//! frame, and the handles through which entities name renderer meshes.
//!
//! Everything here is integer or enumerated state with machine-checked
//! contracts. The single-precision geometry (vectors, matrices, camera,
//! positions) is driven by these decisions but lives with the caller.

pub mod controls;
pub mod input;
pub mod physics;
pub mod render;
