//! Rust enums that stand for values which NVML reports in other forms than a
//! C enumeration.
pub mod device;
pub mod event;
pub mod unit;
