//! GPU-resident frame data and its readback into CPU memory.

pub mod frame;
