//! A small scene-graph engine core: game objects with typed components,
//! per-scene camera management with orbit controls, an active-scene state
//! machine with one-time asset loading, and a per-frame update/render
//! orchestration that produces a render plan for a graphics backend.
//!
//! Geometry is carried in fixed-point "milli" units (1000 = 1.0); the
//! floating-point rendering backend converts at the boundary.

pub mod arena;
pub mod camera;
pub mod camera_builder;
pub mod camera_manager;
pub mod component;
pub mod engine;
pub mod frame;
pub mod game_object;
pub mod lights;
pub mod manager;
pub mod material;
pub mod model;
pub mod options;
pub mod scene;
pub mod transform;
pub mod vec3;
