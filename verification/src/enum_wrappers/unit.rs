//! Wrappers for the C enumerations that unit calls take and return.
use vstd::prelude::*;

use crate::bindings::{
    NVML_FAN_FAILED,
    NVML_FAN_NORMAL,
    NVML_LED_COLOR_AMBER,
    NVML_LED_COLOR_GREEN,
};
use crate::enum_wrappers::{from_c_result, CEnumMapping};
use crate::error::NvmlError;

verus! {

/// Unit fan state.
#[derive(Debug, Clone, Copy, PartialEq, Eq, Hash)]
pub enum FanState {
    /// Working properly
    Normal,
    Failed,
}

impl CEnumMapping for FanState {
    open spec fn c_value(self) -> u32 {
        match self {
            FanState::Normal => NVML_FAN_NORMAL,
            FanState::Failed => NVML_FAN_FAILED,
        }
    }

    open spec fn from_c(value: u32) -> Option<FanState> {
        if value == NVML_FAN_NORMAL {
            Some(FanState::Normal)
        } else if value == NVML_FAN_FAILED {
            Some(FanState::Failed)
        } else {
            None
        }
    }

    proof fn lemma_c_round_trip(self, value: u32) {
    }
}

impl FanState {
    /// Returns the C constant equivalent for this variant.
    pub fn as_c(&self) -> (c: u32)
        ensures
            c == self.c_value(),
    {
        match self {
            FanState::Normal => NVML_FAN_NORMAL,
            FanState::Failed => NVML_FAN_FAILED,
        }
    }

    /// Converts a C value into the variant that it stands for.
    ///
    /// # Errors
    ///
    /// * `UnexpectedVariant`, if no variant stands for `value`
    pub fn try_from(value: u32) -> (r: Result<FanState, NvmlError>)
        ensures
            r == from_c_result(FanState::from_c(value), value),
    {
        if value == NVML_FAN_NORMAL {
            Ok(FanState::Normal)
        } else if value == NVML_FAN_FAILED {
            Ok(FanState::Failed)
        } else {
            Err(NvmlError::UnexpectedVariant(value))
        }
    }
}

/// Unit LED color.
#[derive(Debug, Clone, Copy, PartialEq, Eq, Hash)]
pub enum LedColor {
    /// Used to indicate good health.
    Green,
    /// Used to indicate a problem.
    Amber,
}

impl CEnumMapping for LedColor {
    open spec fn c_value(self) -> u32 {
        match self {
            LedColor::Green => NVML_LED_COLOR_GREEN,
            LedColor::Amber => NVML_LED_COLOR_AMBER,
        }
    }

    open spec fn from_c(value: u32) -> Option<LedColor> {
        if value == NVML_LED_COLOR_GREEN {
            Some(LedColor::Green)
        } else if value == NVML_LED_COLOR_AMBER {
            Some(LedColor::Amber)
        } else {
            None
        }
    }

    proof fn lemma_c_round_trip(self, value: u32) {
    }
}

impl LedColor {
    /// Returns the C constant equivalent for this variant.
    pub fn as_c(&self) -> (c: u32)
        ensures
            c == self.c_value(),
    {
        match self {
            LedColor::Green => NVML_LED_COLOR_GREEN,
            LedColor::Amber => NVML_LED_COLOR_AMBER,
        }
    }

    /// Converts a C value into the variant that it stands for.
    ///
    /// # Errors
    ///
    /// * `UnexpectedVariant`, if no variant stands for `value`
    pub fn try_from(value: u32) -> (r: Result<LedColor, NvmlError>)
        ensures
            r == from_c_result(LedColor::from_c(value), value),
    {
        if value == NVML_LED_COLOR_GREEN {
            Ok(LedColor::Green)
        } else if value == NVML_LED_COLOR_AMBER {
            Ok(LedColor::Amber)
        } else {
            Err(NvmlError::UnexpectedVariant(value))
        }
    }
}

/// The C values of `FanState` are those of NVML's `nvmlFanState_t`: Normal 0, Failed 1;
/// each converts back to its variant, and no other value stands for one.
pub proof fn lemma_fan_state_c_values()
    ensures
        FanState::Normal.c_value() == 0u32,
        FanState::from_c(0u32) == Some(FanState::Normal),
        FanState::Failed.c_value() == 1u32,
        FanState::from_c(1u32) == Some(FanState::Failed),
        forall|v: u32| #[trigger] FanState::from_c(v) is Some ==> (v == 0u32 || v == 1u32),
{
}

/// The C values of `LedColor` are those of NVML's `nvmlLedColor_t`: Green 0, Amber 1;
/// each converts back to its variant, and no other value stands for one.
pub proof fn lemma_led_color_c_values()
    ensures
        LedColor::Green.c_value() == 0u32,
        LedColor::from_c(0u32) == Some(LedColor::Green),
        LedColor::Amber.c_value() == 1u32,
        LedColor::from_c(1u32) == Some(LedColor::Amber),
        forall|v: u32| #[trigger] LedColor::from_c(v) is Some ==> (v == 0u32 || v == 1u32),
{
}

} // verus!
