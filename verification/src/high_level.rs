//! Higher-level constructs built on top of NVML's event API.
pub mod event_loop;
