//! Model of a small windowed GPU demo: the policy that maps platform events
//! to actions, the fixed per-frame command recipe that draws a scissor-clipped
//! clear rectangle and an animated triangle, and the constant pipeline,
//! render-pass, window and layer settings.

pub mod events;
pub mod render;
pub mod setup;
