//! Plain structures that group several values which one NVML call returns.
use vstd::prelude::*;
use vstd::std_specs::convert::FromSpecImpl;

use crate::enum_wrappers::device::{DriverModel, OperationMode};
use crate::structs::device::{DriverModelState, EccModeState, OperationModeState};

pub mod device;

verus! {

/// Returned from `Device.driver_model()`: the current and pending driver models.
///
/// The same values as `DriverModelState`, under the name that `structs` gives them.
#[derive(Debug, Clone, Copy, PartialEq, Eq, Hash)]
pub struct DriverModels {
    pub current: DriverModel,
    pub pending: DriverModel,
}

impl FromSpecImpl<DriverModelState> for DriverModels {
    open spec fn obeys_from_spec() -> bool {
        true
    }

    open spec fn from_spec(v: DriverModelState) -> DriverModels {
        DriverModels { current: v.current, pending: v.pending }
    }
}

impl From<DriverModelState> for DriverModels {
    fn from(v: DriverModelState) -> (r: DriverModels) {
        DriverModels { current: v.current, pending: v.pending }
    }
}

impl FromSpecImpl<DriverModels> for DriverModelState {
    open spec fn obeys_from_spec() -> bool {
        true
    }

    open spec fn from_spec(v: DriverModels) -> DriverModelState {
        DriverModelState { current: v.current, pending: v.pending }
    }
}

impl From<DriverModels> for DriverModelState {
    fn from(v: DriverModels) -> (r: DriverModelState) {
        DriverModelState { current: v.current, pending: v.pending }
    }
}

/// Returned from `Device.is_ecc_enabled()`: whether ECC is currently enabled and whether it will be.
///
/// The same values as `EccModeState`, under the name that `structs` gives them.
#[derive(Debug, Clone, Copy, PartialEq, Eq, Hash)]
pub struct EccModeInfo {
    pub currently_enabled: bool,
    pub pending_enabled: bool,
}

impl FromSpecImpl<EccModeState> for EccModeInfo {
    open spec fn obeys_from_spec() -> bool {
        true
    }

    open spec fn from_spec(v: EccModeState) -> EccModeInfo {
        EccModeInfo { currently_enabled: v.currently_enabled, pending_enabled: v.pending_enabled }
    }
}

impl From<EccModeState> for EccModeInfo {
    fn from(v: EccModeState) -> (r: EccModeInfo) {
        EccModeInfo { currently_enabled: v.currently_enabled, pending_enabled: v.pending_enabled }
    }
}

impl FromSpecImpl<EccModeInfo> for EccModeState {
    open spec fn obeys_from_spec() -> bool {
        true
    }

    open spec fn from_spec(v: EccModeInfo) -> EccModeState {
        EccModeState { currently_enabled: v.currently_enabled, pending_enabled: v.pending_enabled }
    }
}

impl From<EccModeInfo> for EccModeState {
    fn from(v: EccModeInfo) -> (r: EccModeState) {
        EccModeState { currently_enabled: v.currently_enabled, pending_enabled: v.pending_enabled }
    }
}

/// Returned from `Device.gpu_operation_mode()`: the current and pending GPU operation modes.
///
/// The same values as `OperationModeState`, under the name that `structs` gives them.
#[derive(Debug, Clone, Copy, PartialEq, Eq, Hash)]
pub struct OperationModeInfo {
    pub current: OperationMode,
    pub pending: OperationMode,
}

impl FromSpecImpl<OperationModeState> for OperationModeInfo {
    open spec fn obeys_from_spec() -> bool {
        true
    }

    open spec fn from_spec(v: OperationModeState) -> OperationModeInfo {
        OperationModeInfo { current: v.current, pending: v.pending }
    }
}

impl From<OperationModeState> for OperationModeInfo {
    fn from(v: OperationModeState) -> (r: OperationModeInfo) {
        OperationModeInfo { current: v.current, pending: v.pending }
    }
}

impl FromSpecImpl<OperationModeInfo> for OperationModeState {
    open spec fn obeys_from_spec() -> bool {
        true
    }

    open spec fn from_spec(v: OperationModeInfo) -> OperationModeState {
        OperationModeState { current: v.current, pending: v.pending }
    }
}

impl From<OperationModeInfo> for OperationModeState {
    fn from(v: OperationModeInfo) -> (r: OperationModeState) {
        OperationModeState { current: v.current, pending: v.pending }
    }
}

} // verus!
