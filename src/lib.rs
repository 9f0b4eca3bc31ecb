//! The decisions of a fixed-timestep render loop, and the rule that ties a
//! primitive topology to the number of vertices drawn with it.
//!
//! Window, device and shader work happens around this library; the library
//! decides what that work is.
pub mod topology;
pub mod frame_loop;
