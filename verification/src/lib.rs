//! The control logic of a small GPU rendering context: the mesh it draws, the
//! camera's projection parameters, the surface configuration, the command
//! sequence of one frame and the policy by which a frame driver recovers from
//! presentation errors. Everything here works on plain values; the code that
//! owns the GPU handles carries out the steps that these functions return.

pub mod bits;
pub mod camera;
pub mod canvas;
pub mod context;
pub mod controls;
pub mod driver;
pub mod geometry;
pub mod lambda;
pub mod pipeline;
pub mod server;
pub mod surface;
