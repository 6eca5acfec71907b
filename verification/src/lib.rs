//! Core of a minimal interactive surface host.
//!
//! The library is the state machine that drives a GPU presentation surface:
//! deriving a surface configuration from the platform's capability lists,
//! tracking window resizes, and deciding what the surrounding event loop must
//! do after each frame acquisition outcome. The platform window, the GPU
//! backend and the event loop itself are external collaborators: they hand
//! the core plain values (sizes, capability lists, acquire outcomes) and
//! carry out the directives the core returns.

pub mod config;
pub mod error;
pub mod frame;
pub mod state;
