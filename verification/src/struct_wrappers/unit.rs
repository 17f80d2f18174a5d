//! Structures that unit calls return.
use vstd::prelude::*;

use crate::error::NvmlError;
use crate::struct_wrappers::{c_string_result, is_nul_terminated, string_from_c_buffer};

verus! {

/// The contents of an `nvmlLedState_t`: the cause text buffer and the color.
#[derive(Debug, Clone, PartialEq, Eq, Hash)]
pub struct RawLedState {
    /// The `cause` character buffer, a nul-terminated string.
    pub cause: Vec<u8>,
    /// The `nvmlLedColor_t` value.
    pub color: u32,
}

/// The contents of an `nvmlHwbcEntry_t`.
#[derive(Debug, Clone, PartialEq, Eq, Hash)]
pub struct RawHwbcEntry {
    pub hwbc_id: u32,
    /// The `firmwareVersion` character buffer, a nul-terminated string.
    pub firmware_version: Vec<u8>,
}

/// Description of an HWBC entry.
#[derive(Debug, Clone, PartialEq, Eq, Hash)]
pub struct HwbcEntry {
    pub id: u32,
    pub firmware_version: String,
}

impl HwbcEntry {
    /// Builds an `HwbcEntry` from the corresponding C structure.
    ///
    /// # Errors
    ///
    /// * `Utf8Error`, if the firmware version is not valid UTF-8
    pub fn try_from(struct_: RawHwbcEntry) -> (r: Result<HwbcEntry, NvmlError>)
        requires
            is_nul_terminated(struct_.firmware_version@),
        ensures
            match r {
                Ok(entry) => entry.id == struct_.hwbc_id && c_string_result(
                    struct_.firmware_version@,
                ) == Ok::<Seq<char>, NvmlError>(entry.firmware_version@),
                Err(e) => c_string_result(struct_.firmware_version@) == Err::<Seq<char>, NvmlError>(e),
            },
    {
        let firmware_version = string_from_c_buffer(struct_.firmware_version.as_slice())?;
        Ok(HwbcEntry { id: struct_.hwbc_id, firmware_version })
    }
}

} // verus!
