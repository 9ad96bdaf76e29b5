//! Camera and per-frame render planning for a small instanced-cube scene.
//!
//! All state here is kept in exact integer units so that every rule (pitch
//! clamping, field-of-view limits, frame timing, the order of the draw calls)
//! is proved. The floating-point transforms that the rendering front end
//! builds from this state live outside the verified library.
pub mod camera;
pub mod clock;
pub mod renderer;
pub mod dispatch;
