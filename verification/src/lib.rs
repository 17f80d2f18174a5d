//! A safe and verified layer over the NVIDIA Management Library (NVML): the
//! mapping of NVML's C values, return codes and structures onto Rust values,
//! and the decisions that the wrapper's calls make on what NVML reports.
pub mod bindings;
pub mod error;
pub mod enum_wrappers;
pub mod struct_wrappers;
pub mod enums;
pub mod bitmasks;
pub mod high_level;
pub mod structs;
pub mod device;
pub mod wrap_derive;
