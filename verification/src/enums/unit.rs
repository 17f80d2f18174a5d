//! Enums for values that unit calls return.
use vstd::prelude::*;

use crate::bindings::{NVML_LED_COLOR_AMBER, NVML_LED_COLOR_GREEN};
use crate::error::NvmlError;
use crate::struct_wrappers::unit::RawLedState;
use crate::struct_wrappers::{c_string_result, is_nul_terminated, string_from_c_buffer};

verus! {

/// LED states for an S-class unit.
#[derive(Debug, Clone, PartialEq, Eq, Hash)]
pub enum LedState {
    /// Indicates good health.
    Green,
    /// Indicates a problem along with the accompanying cause.
    Amber(String),
}

impl LedState {
    /// Builds a `LedState` from the corresponding C structure.
    ///
    /// # Errors
    ///
    /// * `Utf8Error`, if the cause of an amber state is not valid UTF-8
    /// * `UnexpectedVariant`, if the color is neither green nor amber
    pub fn try_from(struct_: RawLedState) -> (r: Result<LedState, NvmlError>)
        requires
            struct_.color == NVML_LED_COLOR_AMBER ==> is_nul_terminated(struct_.cause@),
        ensures
            struct_.color == NVML_LED_COLOR_GREEN ==> r == Ok::<LedState, NvmlError>(
                LedState::Green,
            ),
            struct_.color == NVML_LED_COLOR_AMBER ==> match r {
                Ok(LedState::Amber(cause)) => c_string_result(struct_.cause@) == Ok::<
                    Seq<char>,
                    NvmlError,
                >(cause@),
                Ok(LedState::Green) => false,
                Err(e) => c_string_result(struct_.cause@) == Err::<Seq<char>, NvmlError>(e),
            },
            struct_.color != NVML_LED_COLOR_GREEN && struct_.color != NVML_LED_COLOR_AMBER ==> r
                == Err::<LedState, NvmlError>(NvmlError::UnexpectedVariant(struct_.color)),
    {
        if struct_.color == NVML_LED_COLOR_GREEN {
            Ok(LedState::Green)
        } else if struct_.color == NVML_LED_COLOR_AMBER {
            let cause = string_from_c_buffer(struct_.cause.as_slice())?;
            Ok(LedState::Amber(cause))
        } else {
            Err(NvmlError::UnexpectedVariant(struct_.color))
        }
    }
}

/// The type of temperature reading to take for a `Unit`.
///
/// Available readings depend on the product.
#[derive(Debug, Clone, Copy, PartialEq, Eq, Hash)]
pub enum TemperatureReading {
    Intake,
    Exhaust,
    Board,
}

impl TemperatureReading {
    /// The value that NVML takes for this reading.
    pub open spec fn c_value(self) -> u32 {
        match self {
            TemperatureReading::Intake => 0,
            TemperatureReading::Exhaust => 1,
            TemperatureReading::Board => 2,
        }
    }

    /// Returns the value that NVML takes for this reading.
    pub fn as_c(&self) -> (c: u32)
        ensures
            c == self.c_value(),
    {
        match self {
            TemperatureReading::Intake => 0,
            TemperatureReading::Exhaust => 1,
            TemperatureReading::Board => 2,
        }
    }
}

/// Another name for `LedState`.
pub type UnitLedState = LedState;

/// Another name for `TemperatureReading`.
pub type UnitTemperatureReading = TemperatureReading;

/// The values that NVML takes for unit temperature readings: intake 0,
/// exhaust 1, board 2.
pub proof fn lemma_temperature_reading_c_values()
    ensures
        TemperatureReading::Intake.c_value() == 0u32,
        TemperatureReading::Exhaust.c_value() == 1u32,
        TemperatureReading::Board.c_value() == 2u32,
{
}

} // verus!
