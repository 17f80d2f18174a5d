//! Structures that device calls return.
use vstd::prelude::*;

use crate::enum_wrappers::device::{DriverModel, OperationMode};

verus! {

/// Returned from `Device.auto_boosted_clocks_enabled()`.
#[derive(Debug, Clone, Copy, PartialEq, Eq, Hash)]
pub struct AutoBoostClocksEnabledInfo {
    /// Current state of auto boosted clocks for the `Device`.
    pub is_enabled: bool,
    /// Default auto boosted clocks behavior for the `Device`.
    ///
    /// The GPU will revert to this default when no applications are using the GPU.
    pub is_enabled_default: bool,
}

/// Returned from `Device.decoder_utilization()` and `Device.encoder_utilization()`.
#[derive(Debug, Clone, Copy, PartialEq, Eq, Hash)]
pub struct UtilizationInfo {
    pub utilization: u32,
    /// Sampling period in microseconds.
    pub sampling_period: u32,
}

/// Returned from `Device.decoder_utilization()`.
pub type DecoderUtilizationInfo = UtilizationInfo;

/// Returned from `Device.encoder_utilization()`.
pub type EncoderUtilizationInfo = UtilizationInfo;

/// Returned from `Device.driver_model()`.
#[derive(Debug, Clone, Copy, PartialEq, Eq, Hash)]
pub struct DriverModelState {
    pub current: DriverModel,
    pub pending: DriverModel,
}

/// Returned from `Device.is_ecc_enabled()`.
#[derive(Debug, Clone, Copy, PartialEq, Eq, Hash)]
pub struct EccModeState {
    pub currently_enabled: bool,
    pub pending_enabled: bool,
}

/// Returned from `Device.gpu_operation_mode()`.
#[derive(Debug, Clone, Copy, PartialEq, Eq, Hash)]
pub struct OperationModeState {
    pub current: OperationMode,
    pub pending: OperationMode,
}

/// Returned from `Device.power_management_limit_constraints()`.
///
/// Values are in milliwatts.
#[derive(Debug, Clone, Copy, PartialEq, Eq, Hash)]
pub struct PowerManagementConstraints {
    pub min_limit: u32,
    pub max_limit: u32,
}

} // verus!
