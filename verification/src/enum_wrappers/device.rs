//! Wrappers for the C enumerations that device calls take and return.
use vstd::prelude::*;

use crate::bindings::{
    NVML_AGGREGATE_ECC,
    NVML_BRAND_GEFORCE,
    NVML_BRAND_GRID,
    NVML_BRAND_NVS,
    NVML_BRAND_QUADRO,
    NVML_BRAND_TESLA,
    NVML_BRAND_UNKNOWN,
    NVML_BRIDGE_CHIP_BRO4,
    NVML_BRIDGE_CHIP_PLX,
    NVML_CLOCK_GRAPHICS,
    NVML_CLOCK_LIMIT_ID_RANGE_START,
    NVML_CLOCK_LIMIT_ID_TDP,
    NVML_CLOCK_LIMIT_ID_UNLIMITED,
    NVML_CLOCK_MEM,
    NVML_CLOCK_SM,
    NVML_CLOCK_VIDEO,
    NVML_DRIVER_WDDM,
    NVML_DRIVER_WDM,
    NVML_GOM_ALL_ON,
    NVML_GOM_COMPUTE,
    NVML_GOM_LOW_DP,
    NVML_MEMORY_ERROR_TYPE_CORRECTED,
    NVML_MEMORY_ERROR_TYPE_UNCORRECTED,
    NVML_RESTRICTED_API_SET_APPLICATION_CLOCKS,
    NVML_RESTRICTED_API_SET_AUTO_BOOSTED_CLOCKS,
    NVML_VALUE_TYPE_DOUBLE,
    NVML_VALUE_TYPE_SIGNED_LONG_LONG,
    NVML_VALUE_TYPE_UNSIGNED_INT,
    NVML_VALUE_TYPE_UNSIGNED_LONG,
    NVML_VALUE_TYPE_UNSIGNED_LONG_LONG,
    NVML_VOLATILE_ECC,
};
use crate::enum_wrappers::{from_c_result, CEnumMapping};
use crate::error::NvmlError;

verus! {

/// API types that allow changes to default permission restrictions.
#[derive(Debug, Clone, Copy, PartialEq, Eq, Hash)]
pub enum Api {
    /// APIs that change application clocks.
    ApplicationClocks,
    /// APIs that enable/disable auto boosted clocks.
    AutoBoostedClocks,
}

impl CEnumMapping for Api {
    open spec fn c_value(self) -> u32 {
        match self {
            Api::ApplicationClocks => NVML_RESTRICTED_API_SET_APPLICATION_CLOCKS,
            Api::AutoBoostedClocks => NVML_RESTRICTED_API_SET_AUTO_BOOSTED_CLOCKS,
        }
    }

    open spec fn from_c(value: u32) -> Option<Api> {
        if value == NVML_RESTRICTED_API_SET_APPLICATION_CLOCKS {
            Some(Api::ApplicationClocks)
        } else if value == NVML_RESTRICTED_API_SET_AUTO_BOOSTED_CLOCKS {
            Some(Api::AutoBoostedClocks)
        } else {
            None
        }
    }

    proof fn lemma_c_round_trip(self, value: u32) {
    }
}

impl Api {
    /// Returns the C constant equivalent for this variant.
    pub fn as_c(&self) -> (c: u32)
        ensures
            c == self.c_value(),
    {
        match self {
            Api::ApplicationClocks => NVML_RESTRICTED_API_SET_APPLICATION_CLOCKS,
            Api::AutoBoostedClocks => NVML_RESTRICTED_API_SET_AUTO_BOOSTED_CLOCKS,
        }
    }

    /// Converts a C value into the variant that it stands for.
    ///
    /// # Errors
    ///
    /// * `UnexpectedVariant`, if no variant stands for `value`
    pub fn try_from(value: u32) -> (r: Result<Api, NvmlError>)
        ensures
            r == from_c_result(Api::from_c(value), value),
    {
        if value == NVML_RESTRICTED_API_SET_APPLICATION_CLOCKS {
            Ok(Api::ApplicationClocks)
        } else if value == NVML_RESTRICTED_API_SET_AUTO_BOOSTED_CLOCKS {
            Ok(Api::AutoBoostedClocks)
        } else {
            Err(NvmlError::UnexpectedVariant(value))
        }
    }
}

/// Clock types. All speeds are in Mhz.
#[derive(Debug, Clone, Copy, PartialEq, Eq, Hash)]
pub enum Clock {
    /// Graphics clock domain.
    Graphics,
    /// SM clock domain.
    SM,
    /// Memory clock domain.
    Memory,
    /// Video encoder/decoder clock domain.
    Video,
}

impl CEnumMapping for Clock {
    open spec fn c_value(self) -> u32 {
        match self {
            Clock::Graphics => NVML_CLOCK_GRAPHICS,
            Clock::SM => NVML_CLOCK_SM,
            Clock::Memory => NVML_CLOCK_MEM,
            Clock::Video => NVML_CLOCK_VIDEO,
        }
    }

    open spec fn from_c(value: u32) -> Option<Clock> {
        if value == NVML_CLOCK_GRAPHICS {
            Some(Clock::Graphics)
        } else if value == NVML_CLOCK_SM {
            Some(Clock::SM)
        } else if value == NVML_CLOCK_MEM {
            Some(Clock::Memory)
        } else if value == NVML_CLOCK_VIDEO {
            Some(Clock::Video)
        } else {
            None
        }
    }

    proof fn lemma_c_round_trip(self, value: u32) {
    }
}

impl Clock {
    /// Returns the C constant equivalent for this variant.
    pub fn as_c(&self) -> (c: u32)
        ensures
            c == self.c_value(),
    {
        match self {
            Clock::Graphics => NVML_CLOCK_GRAPHICS,
            Clock::SM => NVML_CLOCK_SM,
            Clock::Memory => NVML_CLOCK_MEM,
            Clock::Video => NVML_CLOCK_VIDEO,
        }
    }

    /// Converts a C value into the variant that it stands for.
    ///
    /// # Errors
    ///
    /// * `UnexpectedVariant`, if no variant stands for `value`
    pub fn try_from(value: u32) -> (r: Result<Clock, NvmlError>)
        ensures
            r == from_c_result(Clock::from_c(value), value),
    {
        if value == NVML_CLOCK_GRAPHICS {
            Ok(Clock::Graphics)
        } else if value == NVML_CLOCK_SM {
            Ok(Clock::SM)
        } else if value == NVML_CLOCK_MEM {
            Ok(Clock::Memory)
        } else if value == NVML_CLOCK_VIDEO {
            Ok(Clock::Video)
        } else {
            Err(NvmlError::UnexpectedVariant(value))
        }
    }
}

/// GPU brand.
#[derive(Debug, Clone, Copy, PartialEq, Eq, Hash)]
pub enum Brand {
    Unknown,
    /// Targeted at workstations.
    Quadro,
    /// Targeted at high-end compute.
    Tesla,
    /// NVIDIA's multi-display cards.
    NVS,
    /// vGPUs
    GRID,
    /// Targeted at gaming.
    GeForce,
}

impl CEnumMapping for Brand {
    open spec fn c_value(self) -> u32 {
        match self {
            Brand::Unknown => NVML_BRAND_UNKNOWN,
            Brand::Quadro => NVML_BRAND_QUADRO,
            Brand::Tesla => NVML_BRAND_TESLA,
            Brand::NVS => NVML_BRAND_NVS,
            Brand::GRID => NVML_BRAND_GRID,
            Brand::GeForce => NVML_BRAND_GEFORCE,
        }
    }

    open spec fn from_c(value: u32) -> Option<Brand> {
        if value == NVML_BRAND_UNKNOWN {
            Some(Brand::Unknown)
        } else if value == NVML_BRAND_QUADRO {
            Some(Brand::Quadro)
        } else if value == NVML_BRAND_TESLA {
            Some(Brand::Tesla)
        } else if value == NVML_BRAND_NVS {
            Some(Brand::NVS)
        } else if value == NVML_BRAND_GRID {
            Some(Brand::GRID)
        } else if value == NVML_BRAND_GEFORCE {
            Some(Brand::GeForce)
        } else {
            None
        }
    }

    proof fn lemma_c_round_trip(self, value: u32) {
    }
}

impl Brand {
    /// Returns the C constant equivalent for this variant.
    pub fn as_c(&self) -> (c: u32)
        ensures
            c == self.c_value(),
    {
        match self {
            Brand::Unknown => NVML_BRAND_UNKNOWN,
            Brand::Quadro => NVML_BRAND_QUADRO,
            Brand::Tesla => NVML_BRAND_TESLA,
            Brand::NVS => NVML_BRAND_NVS,
            Brand::GRID => NVML_BRAND_GRID,
            Brand::GeForce => NVML_BRAND_GEFORCE,
        }
    }

    /// Converts a C value into the variant that it stands for.
    ///
    /// # Errors
    ///
    /// * `UnexpectedVariant`, if no variant stands for `value`
    pub fn try_from(value: u32) -> (r: Result<Brand, NvmlError>)
        ensures
            r == from_c_result(Brand::from_c(value), value),
    {
        if value == NVML_BRAND_UNKNOWN {
            Ok(Brand::Unknown)
        } else if value == NVML_BRAND_QUADRO {
            Ok(Brand::Quadro)
        } else if value == NVML_BRAND_TESLA {
            Ok(Brand::Tesla)
        } else if value == NVML_BRAND_NVS {
            Ok(Brand::NVS)
        } else if value == NVML_BRAND_GRID {
            Ok(Brand::GRID)
        } else if value == NVML_BRAND_GEFORCE {
            Ok(Brand::GeForce)
        } else {
            Err(NvmlError::UnexpectedVariant(value))
        }
    }
}

/// Represents type of a bridge chip.
#[derive(Debug, Clone, Copy, PartialEq, Eq, Hash)]
pub enum BridgeChip {
    PLX,
    BRO4,
}

impl CEnumMapping for BridgeChip {
    open spec fn c_value(self) -> u32 {
        match self {
            BridgeChip::PLX => NVML_BRIDGE_CHIP_PLX,
            BridgeChip::BRO4 => NVML_BRIDGE_CHIP_BRO4,
        }
    }

    open spec fn from_c(value: u32) -> Option<BridgeChip> {
        if value == NVML_BRIDGE_CHIP_PLX {
            Some(BridgeChip::PLX)
        } else if value == NVML_BRIDGE_CHIP_BRO4 {
            Some(BridgeChip::BRO4)
        } else {
            None
        }
    }

    proof fn lemma_c_round_trip(self, value: u32) {
    }
}

impl BridgeChip {
    /// Returns the C constant equivalent for this variant.
    pub fn as_c(&self) -> (c: u32)
        ensures
            c == self.c_value(),
    {
        match self {
            BridgeChip::PLX => NVML_BRIDGE_CHIP_PLX,
            BridgeChip::BRO4 => NVML_BRIDGE_CHIP_BRO4,
        }
    }

    /// Converts a C value into the variant that it stands for.
    ///
    /// # Errors
    ///
    /// * `UnexpectedVariant`, if no variant stands for `value`
    pub fn try_from(value: u32) -> (r: Result<BridgeChip, NvmlError>)
        ensures
            r == from_c_result(BridgeChip::from_c(value), value),
    {
        if value == NVML_BRIDGE_CHIP_PLX {
            Ok(BridgeChip::PLX)
        } else if value == NVML_BRIDGE_CHIP_BRO4 {
            Ok(BridgeChip::BRO4)
        } else {
            Err(NvmlError::UnexpectedVariant(value))
        }
    }
}

/// Memory error types.
#[derive(Debug, Clone, Copy, PartialEq, Eq, Hash)]
pub enum MemoryError {
    /// A memory error that was corrected for ECC errors.
    Corrected,
    /// A memory error that was not corrected for ECC errors.
    Uncorrected,
}

impl CEnumMapping for MemoryError {
    open spec fn c_value(self) -> u32 {
        match self {
            MemoryError::Corrected => NVML_MEMORY_ERROR_TYPE_CORRECTED,
            MemoryError::Uncorrected => NVML_MEMORY_ERROR_TYPE_UNCORRECTED,
        }
    }

    open spec fn from_c(value: u32) -> Option<MemoryError> {
        if value == NVML_MEMORY_ERROR_TYPE_CORRECTED {
            Some(MemoryError::Corrected)
        } else if value == NVML_MEMORY_ERROR_TYPE_UNCORRECTED {
            Some(MemoryError::Uncorrected)
        } else {
            None
        }
    }

    proof fn lemma_c_round_trip(self, value: u32) {
    }
}

impl MemoryError {
    /// Returns the C constant equivalent for this variant.
    pub fn as_c(&self) -> (c: u32)
        ensures
            c == self.c_value(),
    {
        match self {
            MemoryError::Corrected => NVML_MEMORY_ERROR_TYPE_CORRECTED,
            MemoryError::Uncorrected => NVML_MEMORY_ERROR_TYPE_UNCORRECTED,
        }
    }

    /// Converts a C value into the variant that it stands for.
    ///
    /// # Errors
    ///
    /// * `UnexpectedVariant`, if no variant stands for `value`
    pub fn try_from(value: u32) -> (r: Result<MemoryError, NvmlError>)
        ensures
            r == from_c_result(MemoryError::from_c(value), value),
    {
        if value == NVML_MEMORY_ERROR_TYPE_CORRECTED {
            Ok(MemoryError::Corrected)
        } else if value == NVML_MEMORY_ERROR_TYPE_UNCORRECTED {
            Ok(MemoryError::Uncorrected)
        } else {
            Err(NvmlError::UnexpectedVariant(value))
        }
    }
}

/// ECC counter types.
#[derive(Debug, Clone, Copy, PartialEq, Eq, Hash)]
pub enum EccCounter {
    /// Volatile counts are reset each time the driver loads.
    Volatile,
    /// Aggregate counts persist across reboots (i.e. for the lifetime of the device).
    Aggregate,
}

impl CEnumMapping for EccCounter {
    open spec fn c_value(self) -> u32 {
        match self {
            EccCounter::Volatile => NVML_VOLATILE_ECC,
            EccCounter::Aggregate => NVML_AGGREGATE_ECC,
        }
    }

    open spec fn from_c(value: u32) -> Option<EccCounter> {
        if value == NVML_VOLATILE_ECC {
            Some(EccCounter::Volatile)
        } else if value == NVML_AGGREGATE_ECC {
            Some(EccCounter::Aggregate)
        } else {
            None
        }
    }

    proof fn lemma_c_round_trip(self, value: u32) {
    }
}

impl EccCounter {
    /// Returns the C constant equivalent for this variant.
    pub fn as_c(&self) -> (c: u32)
        ensures
            c == self.c_value(),
    {
        match self {
            EccCounter::Volatile => NVML_VOLATILE_ECC,
            EccCounter::Aggregate => NVML_AGGREGATE_ECC,
        }
    }

    /// Converts a C value into the variant that it stands for.
    ///
    /// # Errors
    ///
    /// * `UnexpectedVariant`, if no variant stands for `value`
    pub fn try_from(value: u32) -> (r: Result<EccCounter, NvmlError>)
        ensures
            r == from_c_result(EccCounter::from_c(value), value),
    {
        if value == NVML_VOLATILE_ECC {
            Ok(EccCounter::Volatile)
        } else if value == NVML_AGGREGATE_ECC {
            Ok(EccCounter::Aggregate)
        } else {
            Err(NvmlError::UnexpectedVariant(value))
        }
    }
}

/// Driver models, Windows only.
#[derive(Debug, Clone, Copy, PartialEq, Eq, Hash)]
pub enum DriverModel {
    /// GPU treated as a display device.
    WDDM,
    /// (TCC model) GPU treated as a generic device (recommended).
    WDM,
}

impl CEnumMapping for DriverModel {
    open spec fn c_value(self) -> u32 {
        match self {
            DriverModel::WDDM => NVML_DRIVER_WDDM,
            DriverModel::WDM => NVML_DRIVER_WDM,
        }
    }

    open spec fn from_c(value: u32) -> Option<DriverModel> {
        if value == NVML_DRIVER_WDDM {
            Some(DriverModel::WDDM)
        } else if value == NVML_DRIVER_WDM {
            Some(DriverModel::WDM)
        } else {
            None
        }
    }

    proof fn lemma_c_round_trip(self, value: u32) {
    }
}

impl DriverModel {
    /// Returns the C constant equivalent for this variant.
    pub fn as_c(&self) -> (c: u32)
        ensures
            c == self.c_value(),
    {
        match self {
            DriverModel::WDDM => NVML_DRIVER_WDDM,
            DriverModel::WDM => NVML_DRIVER_WDM,
        }
    }

    /// Converts a C value into the variant that it stands for.
    ///
    /// # Errors
    ///
    /// * `UnexpectedVariant`, if no variant stands for `value`
    pub fn try_from(value: u32) -> (r: Result<DriverModel, NvmlError>)
        ensures
            r == from_c_result(DriverModel::from_c(value), value),
    {
        if value == NVML_DRIVER_WDDM {
            Ok(DriverModel::WDDM)
        } else if value == NVML_DRIVER_WDM {
            Ok(DriverModel::WDM)
        } else {
            Err(NvmlError::UnexpectedVariant(value))
        }
    }
}

/// GPU operation mode.
#[derive(Debug, Clone, Copy, PartialEq, Eq, Hash)]
pub enum OperationMode {
    AllOn,
    Compute,
    LowDP,
}

impl CEnumMapping for OperationMode {
    open spec fn c_value(self) -> u32 {
        match self {
            OperationMode::AllOn => NVML_GOM_ALL_ON,
            OperationMode::Compute => NVML_GOM_COMPUTE,
            OperationMode::LowDP => NVML_GOM_LOW_DP,
        }
    }

    open spec fn from_c(value: u32) -> Option<OperationMode> {
        if value == NVML_GOM_ALL_ON {
            Some(OperationMode::AllOn)
        } else if value == NVML_GOM_COMPUTE {
            Some(OperationMode::Compute)
        } else if value == NVML_GOM_LOW_DP {
            Some(OperationMode::LowDP)
        } else {
            None
        }
    }

    proof fn lemma_c_round_trip(self, value: u32) {
    }
}

impl OperationMode {
    /// Returns the C constant equivalent for this variant.
    pub fn as_c(&self) -> (c: u32)
        ensures
            c == self.c_value(),
    {
        match self {
            OperationMode::AllOn => NVML_GOM_ALL_ON,
            OperationMode::Compute => NVML_GOM_COMPUTE,
            OperationMode::LowDP => NVML_GOM_LOW_DP,
        }
    }

    /// Converts a C value into the variant that it stands for.
    ///
    /// # Errors
    ///
    /// * `UnexpectedVariant`, if no variant stands for `value`
    pub fn try_from(value: u32) -> (r: Result<OperationMode, NvmlError>)
        ensures
            r == from_c_result(OperationMode::from_c(value), value),
    {
        if value == NVML_GOM_ALL_ON {
            Ok(OperationMode::AllOn)
        } else if value == NVML_GOM_COMPUTE {
            Ok(OperationMode::Compute)
        } else if value == NVML_GOM_LOW_DP {
            Ok(OperationMode::LowDP)
        } else {
            Err(NvmlError::UnexpectedVariant(value))
        }
    }
}

/// The type of the value held by a sample.
#[derive(Debug, Clone, Copy, PartialEq, Eq, Hash)]
pub enum SampleValueType {
    Double,
    UnsignedInt,
    UnsignedLong,
    UnsignedLongLong,
    SignedLongLong,
}

impl CEnumMapping for SampleValueType {
    open spec fn c_value(self) -> u32 {
        match self {
            SampleValueType::Double => NVML_VALUE_TYPE_DOUBLE,
            SampleValueType::UnsignedInt => NVML_VALUE_TYPE_UNSIGNED_INT,
            SampleValueType::UnsignedLong => NVML_VALUE_TYPE_UNSIGNED_LONG,
            SampleValueType::UnsignedLongLong => NVML_VALUE_TYPE_UNSIGNED_LONG_LONG,
            SampleValueType::SignedLongLong => NVML_VALUE_TYPE_SIGNED_LONG_LONG,
        }
    }

    open spec fn from_c(value: u32) -> Option<SampleValueType> {
        if value == NVML_VALUE_TYPE_DOUBLE {
            Some(SampleValueType::Double)
        } else if value == NVML_VALUE_TYPE_UNSIGNED_INT {
            Some(SampleValueType::UnsignedInt)
        } else if value == NVML_VALUE_TYPE_UNSIGNED_LONG {
            Some(SampleValueType::UnsignedLong)
        } else if value == NVML_VALUE_TYPE_UNSIGNED_LONG_LONG {
            Some(SampleValueType::UnsignedLongLong)
        } else if value == NVML_VALUE_TYPE_SIGNED_LONG_LONG {
            Some(SampleValueType::SignedLongLong)
        } else {
            None
        }
    }

    proof fn lemma_c_round_trip(self, value: u32) {
    }
}

impl SampleValueType {
    /// Returns the C constant equivalent for this variant.
    pub fn as_c(&self) -> (c: u32)
        ensures
            c == self.c_value(),
    {
        match self {
            SampleValueType::Double => NVML_VALUE_TYPE_DOUBLE,
            SampleValueType::UnsignedInt => NVML_VALUE_TYPE_UNSIGNED_INT,
            SampleValueType::UnsignedLong => NVML_VALUE_TYPE_UNSIGNED_LONG,
            SampleValueType::UnsignedLongLong => NVML_VALUE_TYPE_UNSIGNED_LONG_LONG,
            SampleValueType::SignedLongLong => NVML_VALUE_TYPE_SIGNED_LONG_LONG,
        }
    }

    /// Converts a C value into the variant that it stands for.
    ///
    /// # Errors
    ///
    /// * `UnexpectedVariant`, if no variant stands for `value`
    pub fn try_from(value: u32) -> (r: Result<SampleValueType, NvmlError>)
        ensures
            r == from_c_result(SampleValueType::from_c(value), value),
    {
        if value == NVML_VALUE_TYPE_DOUBLE {
            Ok(SampleValueType::Double)
        } else if value == NVML_VALUE_TYPE_UNSIGNED_INT {
            Ok(SampleValueType::UnsignedInt)
        } else if value == NVML_VALUE_TYPE_UNSIGNED_LONG {
            Ok(SampleValueType::UnsignedLong)
        } else if value == NVML_VALUE_TYPE_UNSIGNED_LONG_LONG {
            Ok(SampleValueType::UnsignedLongLong)
        } else if value == NVML_VALUE_TYPE_SIGNED_LONG_LONG {
            Ok(SampleValueType::SignedLongLong)
        } else {
            Err(NvmlError::UnexpectedVariant(value))
        }
    }
}

/// Symbolic bounds for locked GPU clocks.
#[derive(Debug, Clone, Copy, PartialEq, Eq, Hash)]
pub enum ClockLimitId {
    Range,
    Tdp,
    Unlimited,
}

impl CEnumMapping for ClockLimitId {
    open spec fn c_value(self) -> u32 {
        match self {
            ClockLimitId::Range => NVML_CLOCK_LIMIT_ID_RANGE_START,
            ClockLimitId::Tdp => NVML_CLOCK_LIMIT_ID_TDP,
            ClockLimitId::Unlimited => NVML_CLOCK_LIMIT_ID_UNLIMITED,
        }
    }

    open spec fn from_c(value: u32) -> Option<ClockLimitId> {
        if value == NVML_CLOCK_LIMIT_ID_RANGE_START {
            Some(ClockLimitId::Range)
        } else if value == NVML_CLOCK_LIMIT_ID_TDP {
            Some(ClockLimitId::Tdp)
        } else if value == NVML_CLOCK_LIMIT_ID_UNLIMITED {
            Some(ClockLimitId::Unlimited)
        } else {
            None
        }
    }

    proof fn lemma_c_round_trip(self, value: u32) {
    }
}

impl ClockLimitId {
    /// Returns the C constant equivalent for this variant.
    pub fn as_c(&self) -> (c: u32)
        ensures
            c == self.c_value(),
    {
        match self {
            ClockLimitId::Range => NVML_CLOCK_LIMIT_ID_RANGE_START,
            ClockLimitId::Tdp => NVML_CLOCK_LIMIT_ID_TDP,
            ClockLimitId::Unlimited => NVML_CLOCK_LIMIT_ID_UNLIMITED,
        }
    }

    /// Converts a C value into the variant that it stands for.
    ///
    /// # Errors
    ///
    /// * `UnexpectedVariant`, if no variant stands for `value`
    pub fn try_from(value: u32) -> (r: Result<ClockLimitId, NvmlError>)
        ensures
            r == from_c_result(ClockLimitId::from_c(value), value),
    {
        if value == NVML_CLOCK_LIMIT_ID_RANGE_START {
            Ok(ClockLimitId::Range)
        } else if value == NVML_CLOCK_LIMIT_ID_TDP {
            Ok(ClockLimitId::Tdp)
        } else if value == NVML_CLOCK_LIMIT_ID_UNLIMITED {
            Ok(ClockLimitId::Unlimited)
        } else {
            Err(NvmlError::UnexpectedVariant(value))
        }
    }
}

/// The C values of `Api` are those of NVML's `nvmlRestrictedAPI_t`: ApplicationClocks 0, AutoBoostedClocks 1;
/// each converts back to its variant, and no other value stands for one.
pub proof fn lemma_api_c_values()
    ensures
        Api::ApplicationClocks.c_value() == 0u32,
        Api::from_c(0u32) == Some(Api::ApplicationClocks),
        Api::AutoBoostedClocks.c_value() == 1u32,
        Api::from_c(1u32) == Some(Api::AutoBoostedClocks),
        forall|v: u32| #[trigger] Api::from_c(v) is Some ==> (v == 0u32 || v == 1u32),
{
}

/// The C values of `Clock` are those of NVML's `nvmlClockType_t`: Graphics 0, SM 1, Memory 2, Video 3;
/// each converts back to its variant, and no other value stands for one.
pub proof fn lemma_clock_c_values()
    ensures
        Clock::Graphics.c_value() == 0u32,
        Clock::from_c(0u32) == Some(Clock::Graphics),
        Clock::SM.c_value() == 1u32,
        Clock::from_c(1u32) == Some(Clock::SM),
        Clock::Memory.c_value() == 2u32,
        Clock::from_c(2u32) == Some(Clock::Memory),
        Clock::Video.c_value() == 3u32,
        Clock::from_c(3u32) == Some(Clock::Video),
        forall|v: u32| #[trigger] Clock::from_c(v) is Some ==> (v == 0u32 || v == 1u32 || v == 2u32 || v == 3u32),
{
}

/// The C values of `Brand` are those of NVML's `nvmlBrandType_t`: Unknown 0, Quadro 1, Tesla 2, NVS 3, GRID 4, GeForce 5;
/// each converts back to its variant, and no other value stands for one.
pub proof fn lemma_brand_c_values()
    ensures
        Brand::Unknown.c_value() == 0u32,
        Brand::from_c(0u32) == Some(Brand::Unknown),
        Brand::Quadro.c_value() == 1u32,
        Brand::from_c(1u32) == Some(Brand::Quadro),
        Brand::Tesla.c_value() == 2u32,
        Brand::from_c(2u32) == Some(Brand::Tesla),
        Brand::NVS.c_value() == 3u32,
        Brand::from_c(3u32) == Some(Brand::NVS),
        Brand::GRID.c_value() == 4u32,
        Brand::from_c(4u32) == Some(Brand::GRID),
        Brand::GeForce.c_value() == 5u32,
        Brand::from_c(5u32) == Some(Brand::GeForce),
        forall|v: u32| #[trigger] Brand::from_c(v) is Some ==> (v == 0u32 || v == 1u32 || v == 2u32 || v == 3u32 || v == 4u32 || v == 5u32),
{
}

/// The C values of `BridgeChip` are those of NVML's `nvmlBridgeChipType_t`: PLX 0, BRO4 1;
/// each converts back to its variant, and no other value stands for one.
pub proof fn lemma_bridge_chip_c_values()
    ensures
        BridgeChip::PLX.c_value() == 0u32,
        BridgeChip::from_c(0u32) == Some(BridgeChip::PLX),
        BridgeChip::BRO4.c_value() == 1u32,
        BridgeChip::from_c(1u32) == Some(BridgeChip::BRO4),
        forall|v: u32| #[trigger] BridgeChip::from_c(v) is Some ==> (v == 0u32 || v == 1u32),
{
}

/// The C values of `MemoryError` are those of NVML's `nvmlMemoryErrorType_t`: Corrected 0, Uncorrected 1;
/// each converts back to its variant, and no other value stands for one.
pub proof fn lemma_memory_error_c_values()
    ensures
        MemoryError::Corrected.c_value() == 0u32,
        MemoryError::from_c(0u32) == Some(MemoryError::Corrected),
        MemoryError::Uncorrected.c_value() == 1u32,
        MemoryError::from_c(1u32) == Some(MemoryError::Uncorrected),
        forall|v: u32| #[trigger] MemoryError::from_c(v) is Some ==> (v == 0u32 || v == 1u32),
{
}

/// The C values of `EccCounter` are those of NVML's `nvmlEccCounterType_t`: Volatile 0, Aggregate 1;
/// each converts back to its variant, and no other value stands for one.
pub proof fn lemma_ecc_counter_c_values()
    ensures
        EccCounter::Volatile.c_value() == 0u32,
        EccCounter::from_c(0u32) == Some(EccCounter::Volatile),
        EccCounter::Aggregate.c_value() == 1u32,
        EccCounter::from_c(1u32) == Some(EccCounter::Aggregate),
        forall|v: u32| #[trigger] EccCounter::from_c(v) is Some ==> (v == 0u32 || v == 1u32),
{
}

/// The C values of `DriverModel` are those of NVML's `nvmlDriverModel_t`: WDDM 0, WDM 1;
/// each converts back to its variant, and no other value stands for one.
pub proof fn lemma_driver_model_c_values()
    ensures
        DriverModel::WDDM.c_value() == 0u32,
        DriverModel::from_c(0u32) == Some(DriverModel::WDDM),
        DriverModel::WDM.c_value() == 1u32,
        DriverModel::from_c(1u32) == Some(DriverModel::WDM),
        forall|v: u32| #[trigger] DriverModel::from_c(v) is Some ==> (v == 0u32 || v == 1u32),
{
}

/// The C values of `OperationMode` are those of NVML's `nvmlGpuOperationMode_t`: AllOn 0, Compute 1, LowDP 2;
/// each converts back to its variant, and no other value stands for one.
pub proof fn lemma_operation_mode_c_values()
    ensures
        OperationMode::AllOn.c_value() == 0u32,
        OperationMode::from_c(0u32) == Some(OperationMode::AllOn),
        OperationMode::Compute.c_value() == 1u32,
        OperationMode::from_c(1u32) == Some(OperationMode::Compute),
        OperationMode::LowDP.c_value() == 2u32,
        OperationMode::from_c(2u32) == Some(OperationMode::LowDP),
        forall|v: u32| #[trigger] OperationMode::from_c(v) is Some ==> (v == 0u32 || v == 1u32 || v == 2u32),
{
}

/// The C values of `SampleValueType` are those of NVML's `nvmlValueType_t`: Double 0, UnsignedInt 1, UnsignedLong 2, UnsignedLongLong 3, SignedLongLong 4;
/// each converts back to its variant, and no other value stands for one.
pub proof fn lemma_sample_value_type_c_values()
    ensures
        SampleValueType::Double.c_value() == 0u32,
        SampleValueType::from_c(0u32) == Some(SampleValueType::Double),
        SampleValueType::UnsignedInt.c_value() == 1u32,
        SampleValueType::from_c(1u32) == Some(SampleValueType::UnsignedInt),
        SampleValueType::UnsignedLong.c_value() == 2u32,
        SampleValueType::from_c(2u32) == Some(SampleValueType::UnsignedLong),
        SampleValueType::UnsignedLongLong.c_value() == 3u32,
        SampleValueType::from_c(3u32) == Some(SampleValueType::UnsignedLongLong),
        SampleValueType::SignedLongLong.c_value() == 4u32,
        SampleValueType::from_c(4u32) == Some(SampleValueType::SignedLongLong),
        forall|v: u32| #[trigger] SampleValueType::from_c(v) is Some ==> (v == 0u32 || v == 1u32 || v == 2u32 || v == 3u32 || v == 4u32),
{
}

/// The C values of `ClockLimitId` are those of NVML's `nvmlClockLimitId_t`: Range 0xffff_ff00, Tdp 0xffff_ff01, Unlimited 0xffff_ff02;
/// each converts back to its variant, and no other value stands for one.
pub proof fn lemma_clock_limit_id_c_values()
    ensures
        ClockLimitId::Range.c_value() == 0xffff_ff00u32,
        ClockLimitId::from_c(0xffff_ff00u32) == Some(ClockLimitId::Range),
        ClockLimitId::Tdp.c_value() == 0xffff_ff01u32,
        ClockLimitId::from_c(0xffff_ff01u32) == Some(ClockLimitId::Tdp),
        ClockLimitId::Unlimited.c_value() == 0xffff_ff02u32,
        ClockLimitId::from_c(0xffff_ff02u32) == Some(ClockLimitId::Unlimited),
        forall|v: u32| #[trigger] ClockLimitId::from_c(v) is Some ==> (v == 0xffff_ff00u32 || v == 0xffff_ff01u32 || v == 0xffff_ff02u32),
{
}

} // verus!
