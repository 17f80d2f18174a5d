//! Numeric values of the NVML C API that this library maps to and from.
//!
//! These are the values that `nvml.h` assigns to its return codes, enumeration
//! constants and bit flags.
use vstd::prelude::*;

verus! {

// ---- nvmlReturn_t ----
pub const NVML_SUCCESS: u32 = 0;
pub const NVML_ERROR_UNINITIALIZED: u32 = 1;
pub const NVML_ERROR_INVALID_ARGUMENT: u32 = 2;
pub const NVML_ERROR_NOT_SUPPORTED: u32 = 3;
pub const NVML_ERROR_NO_PERMISSION: u32 = 4;
pub const NVML_ERROR_ALREADY_INITIALIZED: u32 = 5;
pub const NVML_ERROR_NOT_FOUND: u32 = 6;
pub const NVML_ERROR_INSUFFICIENT_SIZE: u32 = 7;
pub const NVML_ERROR_INSUFFICIENT_POWER: u32 = 8;
pub const NVML_ERROR_DRIVER_NOT_LOADED: u32 = 9;
pub const NVML_ERROR_TIMEOUT: u32 = 10;
pub const NVML_ERROR_IRQ_ISSUE: u32 = 11;
pub const NVML_ERROR_LIBRARY_NOT_FOUND: u32 = 12;
pub const NVML_ERROR_FUNCTION_NOT_FOUND: u32 = 13;
pub const NVML_ERROR_CORRUPTED_INFOROM: u32 = 14;
pub const NVML_ERROR_GPU_IS_LOST: u32 = 15;
pub const NVML_ERROR_RESET_REQUIRED: u32 = 16;
pub const NVML_ERROR_OPERATING_SYSTEM: u32 = 17;
pub const NVML_ERROR_LIB_RM_VERSION_MISMATCH: u32 = 18;
pub const NVML_ERROR_IN_USE: u32 = 19;
pub const NVML_ERROR_MEMORY: u32 = 20;
pub const NVML_ERROR_NO_DATA: u32 = 21;
pub const NVML_ERROR_VGPU_ECC_NOT_SUPPORTED: u32 = 22;
pub const NVML_ERROR_UNKNOWN: u32 = 999;

// ---- nvmlEnableState_t ----
pub const NVML_FEATURE_DISABLED: u32 = 0;
pub const NVML_FEATURE_ENABLED: u32 = 1;

// ---- nvmlRestrictedAPI_t ----
pub const NVML_RESTRICTED_API_SET_APPLICATION_CLOCKS: u32 = 0;
pub const NVML_RESTRICTED_API_SET_AUTO_BOOSTED_CLOCKS: u32 = 1;
pub const NVML_RESTRICTED_API_COUNT: u32 = 2;

// ---- nvmlClockType_t ----
pub const NVML_CLOCK_GRAPHICS: u32 = 0;
pub const NVML_CLOCK_SM: u32 = 1;
pub const NVML_CLOCK_MEM: u32 = 2;
pub const NVML_CLOCK_VIDEO: u32 = 3;
pub const NVML_CLOCK_COUNT: u32 = 4;

// ---- nvmlBrandType_t ----
pub const NVML_BRAND_UNKNOWN: u32 = 0;
pub const NVML_BRAND_QUADRO: u32 = 1;
pub const NVML_BRAND_TESLA: u32 = 2;
pub const NVML_BRAND_NVS: u32 = 3;
pub const NVML_BRAND_GRID: u32 = 4;
pub const NVML_BRAND_GEFORCE: u32 = 5;
pub const NVML_BRAND_COUNT: u32 = 6;

// ---- nvmlBridgeChipType_t ----
pub const NVML_BRIDGE_CHIP_PLX: u32 = 0;
pub const NVML_BRIDGE_CHIP_BRO4: u32 = 1;

// ---- nvmlMemoryErrorType_t ----
pub const NVML_MEMORY_ERROR_TYPE_CORRECTED: u32 = 0;
pub const NVML_MEMORY_ERROR_TYPE_UNCORRECTED: u32 = 1;
pub const NVML_MEMORY_ERROR_TYPE_COUNT: u32 = 2;

// ---- nvmlEccCounterType_t ----
pub const NVML_VOLATILE_ECC: u32 = 0;
pub const NVML_AGGREGATE_ECC: u32 = 1;
pub const NVML_ECC_COUNTER_TYPE_COUNT: u32 = 2;

// ---- nvmlDriverModel_t ----
pub const NVML_DRIVER_WDDM: u32 = 0;
pub const NVML_DRIVER_WDM: u32 = 1;

// ---- nvmlGpuOperationMode_t ----
pub const NVML_GOM_ALL_ON: u32 = 0;
pub const NVML_GOM_COMPUTE: u32 = 1;
pub const NVML_GOM_LOW_DP: u32 = 2;

// ---- nvmlValueType_t ----
pub const NVML_VALUE_TYPE_DOUBLE: u32 = 0;
pub const NVML_VALUE_TYPE_UNSIGNED_INT: u32 = 1;
pub const NVML_VALUE_TYPE_UNSIGNED_LONG: u32 = 2;
pub const NVML_VALUE_TYPE_UNSIGNED_LONG_LONG: u32 = 3;
pub const NVML_VALUE_TYPE_SIGNED_LONG_LONG: u32 = 4;
pub const NVML_VALUE_TYPE_COUNT: u32 = 5;

// ---- nvmlClockLimitId_t ----
pub const NVML_CLOCK_LIMIT_ID_RANGE_START: u32 = 0xffff_ff00;
pub const NVML_CLOCK_LIMIT_ID_TDP: u32 = 0xffff_ff01;
pub const NVML_CLOCK_LIMIT_ID_UNLIMITED: u32 = 0xffff_ff02;

// ---- nvmlFanState_t ----
pub const NVML_FAN_NORMAL: u32 = 0;
pub const NVML_FAN_FAILED: u32 = 1;

// ---- nvmlLedColor_t ----
pub const NVML_LED_COLOR_GREEN: u32 = 0;
pub const NVML_LED_COLOR_AMBER: u32 = 1;

// ---- nvmlNvLinkUtilizationCountUnits_t ----
pub const NVML_NVLINK_COUNTER_UNIT_CYCLES: u32 = 0;
pub const NVML_NVLINK_COUNTER_UNIT_PACKETS: u32 = 1;
pub const NVML_NVLINK_COUNTER_UNIT_BYTES: u32 = 2;
pub const NVML_NVLINK_COUNTER_UNIT_COUNT: u32 = 3;

// ---- nvmlNvLinkUtilizationCountPktTypes_t ----
pub const NVML_NVLINK_COUNTER_PKTFILTER_NOP: u32 = 0x1;
pub const NVML_NVLINK_COUNTER_PKTFILTER_READ: u32 = 0x2;
pub const NVML_NVLINK_COUNTER_PKTFILTER_WRITE: u32 = 0x4;
pub const NVML_NVLINK_COUNTER_PKTFILTER_RATOM: u32 = 0x8;
pub const NVML_NVLINK_COUNTER_PKTFILTER_NRATOM: u32 = 0x10;
pub const NVML_NVLINK_COUNTER_PKTFILTER_FLUSH: u32 = 0x20;
pub const NVML_NVLINK_COUNTER_PKTFILTER_RESPDATA: u32 = 0x40;
pub const NVML_NVLINK_COUNTER_PKTFILTER_RESPNODATA: u32 = 0x80;
pub const NVML_NVLINK_COUNTER_PKTFILTER_ALL: u32 = 0xff;

// ---- nvmlBusType_t ----
pub const NVML_BUS_TYPE_UNKNOWN: u32 = 0;
pub const NVML_BUS_TYPE_PCI: u32 = 1;
pub const NVML_BUS_TYPE_PCIE: u32 = 2;
pub const NVML_BUS_TYPE_FPCI: u32 = 3;
pub const NVML_BUS_TYPE_AGP: u32 = 4;

// ---- nvmlPowerSource_t ----
pub const NVML_POWER_SOURCE_AC: u32 = 0;
pub const NVML_POWER_SOURCE_BATTERY: u32 = 1;

// ---- nvmlDeviceArchitecture_t ----
pub const NVML_DEVICE_ARCH_KEPLER: u32 = 2;
pub const NVML_DEVICE_ARCH_MAXWELL: u32 = 3;
pub const NVML_DEVICE_ARCH_PASCAL: u32 = 4;
pub const NVML_DEVICE_ARCH_VOLTA: u32 = 5;
pub const NVML_DEVICE_ARCH_TURING: u32 = 6;
pub const NVML_DEVICE_ARCH_AMPERE: u32 = 7;
pub const NVML_DEVICE_ARCH_UNKNOWN: u32 = 0xffff_ffff;

// ---- clocks throttle reasons (unsigned long long bit flags) ----
pub const NVML_CLOCKS_THROTTLE_REASON_GPU_IDLE: u64 = 0x1;
pub const NVML_CLOCKS_THROTTLE_REASON_APPLICATIONS_CLOCKS_SETTING: u64 = 0x2;
pub const NVML_CLOCKS_THROTTLE_REASON_USER_DEFINED_CLOCKS: u64 = 0x2;
pub const NVML_CLOCKS_THROTTLE_REASON_SW_POWER_CAP: u64 = 0x4;
pub const NVML_CLOCKS_THROTTLE_REASON_HW_SLOWDOWN: u64 = 0x8;
pub const NVML_CLOCKS_THROTTLE_REASON_SYNC_BOOST: u64 = 0x10;
pub const NVML_CLOCKS_THROTTLE_REASON_UNKNOWN: u64 = 0x8000_0000_0000_0000;
pub const NVML_CLOCKS_THROTTLE_REASON_NONE: u64 = 0x0;

// ---- event types (unsigned long long bit flags) ----
pub const NVML_EVENT_TYPE_SINGLE_BIT_ECC_ERROR: u64 = 0x1;
pub const NVML_EVENT_TYPE_DOUBLE_BIT_ECC_ERROR: u64 = 0x2;
pub const NVML_EVENT_TYPE_PSTATE: u64 = 0x4;
pub const NVML_EVENT_TYPE_XID_CRITICAL_ERROR: u64 = 0x8;
pub const NVML_EVENT_TYPE_CLOCK: u64 = 0x10;
pub const NVML_EVENT_TYPE_NONE: u64 = 0x0;

/// The value that NVML reports in the event data of a critical XID error event
/// when the XID error is not known.
pub const NVML_XID_UNKNOWN: u64 = 999;

// ---- generic behaviour flags ----
pub const NVML_FLAG_DEFAULT: u32 = 0x0;
pub const NVML_FLAG_FORCE: u32 = 0x1;

// ---- initialization flags ----
pub const NVML_INIT_FLAG_NO_GPUS: u32 = 0x1;

/// `NVML_VALUE_NOT_AVAILABLE` (`-1`) read as a 32-bit unsigned value.
pub const NVML_VALUE_NOT_AVAILABLE_U32: u32 = 0xffff_ffff;

/// `NVML_VALUE_NOT_AVAILABLE` (`-1`) read as a 64-bit unsigned value.
pub const NVML_VALUE_NOT_AVAILABLE_U64: u64 = 0xffff_ffff_ffff_ffff;

// ---- buffer sizes ----
/// Length of the `busId` character array of `nvmlPciInfo_t`.
pub const NVML_DEVICE_PCI_BUS_ID_BUFFER_SIZE: usize = 16;

/// Number of entries of the `bridgeChipInfo` array of `nvmlBridgeChipHierarchy_t`.
pub const NVML_MAX_PHYSICAL_BRIDGE: usize = 128;

} // verus!
