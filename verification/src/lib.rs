//! Normalized status snapshots for a hardware accelerator device.
//!
//! The `gpu_status` module holds the vendor-independent snapshot record,
//! the performance-state codes and the unit conversions; the `nvidia`
//! module binds them to the NVIDIA management library.

pub mod gpu_status;
pub mod nvidia;
