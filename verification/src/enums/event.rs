//! Enums for values that event calls return.
use vstd::prelude::*;

verus! {

/// The XID error of a critical XID error event.
#[derive(Debug, Clone, Copy, PartialEq, Eq, Hash)]
pub enum XidError {
    /// The XID error number.
    Value(u64),
    /// NVML could not tell which XID error occurred.
    Unknown,
}

} // verus!
