//! Host side of a ray tracer that runs as a compute kernel on a Vulkan device.
//!
//! The library decides what the device is asked to do and checks what comes back: which
//! device and queue family to use, what the scene, the camera and the output look like
//! in device memory, which buffer goes into which slot of the kernel, the grid that the
//! kernel is dispatched over, and the order of the stages of a run. Device work that
//! needs an `unsafe` call or a floating-point argument is left to the caller, who
//! reports its outcome.
pub mod binary32;
pub mod binding;
pub mod buffers;
pub mod camera;
pub mod device;
pub mod dispatch;
pub mod error;
pub mod raster;
pub mod scene;
pub mod tracer;
