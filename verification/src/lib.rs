//! Frame lifecycle and GPU resource coordination for an instanced, lit cube
//! renderer.
//!
//! The library holds the renderer's decision core: the state machine that
//! tracks the configured surface and its multisampled color/depth targets,
//! the classification of surface-acquisition failures, the per-tick frame
//! protocol, input dispatch and camera movement intents, the instance grid
//! layout, and the byte layout of the GPU-visible uniform and instance
//! records. Device work (command recording, buffer uploads, windowing) lives
//! outside, in a thin shell that acts on the plans and directives this
//! library produces.

pub mod controller;
pub mod frame;
pub mod grid;
pub mod layout;
pub mod renderer;
pub mod targets;
