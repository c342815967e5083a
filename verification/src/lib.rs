//! Core logic of a hardware ray-tracing renderer.
//!
//! The crate models and verifies the decision-making heart of a Vulkan
//! ray tracer: physical-device selection, memory-type resolution,
//! shader-binding-table layout, acceleration-structure input records,
//! the per-frame synchronization state machine, and the render-settings
//! uniform encoding. The unverifiable edges (driver calls, windowing,
//! floating-point camera math) live outside the library and feed it
//! plain values.

pub mod accel;
pub mod device;
pub mod error;
pub mod frame;
pub mod memory;
pub mod sbt;
pub mod scene;
pub mod settings;
pub mod swapchain;
pub mod uniform;
