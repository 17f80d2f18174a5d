//! Rust enums that stand for C enumerations of NVML, and the conversions
//! between the two.
use vstd::prelude::*;

use crate::bindings::{NVML_FEATURE_DISABLED, NVML_FEATURE_ENABLED};
use crate::error::NvmlError;

pub mod device;
pub mod nv_link;
pub mod unit;

verus! {

/// The mapping between the variants of a Rust enum and the C values that
/// stand for them.
pub trait CEnumMapping: Sized {
    /// The C value that stands for this variant.
    spec fn c_value(self) -> u32;

    /// The variant that a C value stands for, if any.
    spec fn from_c(value: u32) -> Option<Self>;

    /// A variant converted to its C value converts back to itself, and a C value
    /// that converts to a variant is that variant's C value: the mapping is a
    /// bijection between the variants and the values that it accepts.
    proof fn lemma_c_round_trip(self, value: u32)
        ensures
            Self::from_c(self.c_value()) == Some(self),
            Self::from_c(value) matches Some(x) ==> x.c_value() == value,
    ;
}

/// What `try_from` of an enum wrapper gives for a C value: the variant that the
/// value stands for, or `UnexpectedVariant` holding the value.
pub open spec fn from_c_result<T>(found: Option<T>, value: u32) -> Result<T, NvmlError> {
    match found {
        Some(x) => Ok(x),
        None => Err(NvmlError::UnexpectedVariant(value)),
    }
}

/// The `bool` that an `nvmlEnableState_t` value stands for, or the error for a
/// value that is neither state.
pub open spec fn bool_of_state(state: u32) -> Result<bool, NvmlError> {
    if state == NVML_FEATURE_ENABLED {
        Ok(true)
    } else if state == NVML_FEATURE_DISABLED {
        Ok(false)
    } else {
        Err(NvmlError::UnexpectedVariant(state))
    }
}

/// The `nvmlEnableState_t` value that stands for a `bool`.
pub open spec fn state_of_bool(enabled: bool) -> u32 {
    if enabled {
        NVML_FEATURE_ENABLED
    } else {
        NVML_FEATURE_DISABLED
    }
}

/// Converts an `nvmlEnableState_t` value into a `bool`.
///
/// # Errors
///
/// * `UnexpectedVariant`, if `state` is neither enabled nor disabled
pub fn bool_from_state(state: u32) -> (r: Result<bool, NvmlError>)
    ensures
        r == bool_of_state(state),
{
    if state == NVML_FEATURE_DISABLED {
        Ok(false)
    } else if state == NVML_FEATURE_ENABLED {
        Ok(true)
    } else {
        Err(NvmlError::UnexpectedVariant(state))
    }
}

/// Converts a `bool` into an `nvmlEnableState_t` value.
pub fn state_from_bool(enabled: bool) -> (state: u32)
    ensures
        state == state_of_bool(enabled),
{
    if enabled {
        NVML_FEATURE_ENABLED
    } else {
        NVML_FEATURE_DISABLED
    }
}

/// A `bool` turned into an enable state and back is the same `bool`, and a
/// state that reads as a `bool` is the state of that `bool`.
pub proof fn lemma_enable_state_round_trip(enabled: bool, state: u32)
    ensures
        bool_of_state(state_of_bool(enabled)) == Ok::<bool, NvmlError>(enabled),
        bool_of_state(state) matches Ok(b) ==> state_of_bool(b) == state,
{
}

/// Enable states follow NVML's `nvmlEnableState_t`: 0 is disabled, 1 is
/// enabled, and any other value is `UnexpectedVariant` holding it.
pub proof fn lemma_enable_state_values(state: u32)
    ensures
        bool_of_state(0u32) == Ok::<bool, NvmlError>(false),
        bool_of_state(1u32) == Ok::<bool, NvmlError>(true),
        state_of_bool(false) == 0u32,
        state_of_bool(true) == 1u32,
        state > 1 ==> bool_of_state(state) == Err::<bool, NvmlError>(NvmlError::UnexpectedVariant(state)),
{
}

} // verus!
