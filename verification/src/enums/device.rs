//! Enums for values that device calls return.
use vstd::prelude::*;

use crate::bindings::{
    NVML_BUS_TYPE_AGP,
    NVML_BUS_TYPE_FPCI,
    NVML_BUS_TYPE_PCI,
    NVML_BUS_TYPE_PCIE,
    NVML_BUS_TYPE_UNKNOWN,
    NVML_DEVICE_ARCH_AMPERE,
    NVML_DEVICE_ARCH_KEPLER,
    NVML_DEVICE_ARCH_MAXWELL,
    NVML_DEVICE_ARCH_PASCAL,
    NVML_DEVICE_ARCH_TURING,
    NVML_DEVICE_ARCH_UNKNOWN,
    NVML_DEVICE_ARCH_VOLTA,
    NVML_POWER_SOURCE_AC,
    NVML_POWER_SOURCE_BATTERY,
    NVML_VALUE_NOT_AVAILABLE_U64,
};
use crate::enum_wrappers::device::{ClockLimitId, SampleValueType};
use crate::enum_wrappers::{from_c_result, CEnumMapping};
use crate::error::NvmlError;

verus! {

/// Represents possible variants for a firmware version.
#[derive(Debug, Clone, Copy, PartialEq, Eq, Hash)]
pub enum FirmwareVersion {
    /// The version is unavailable.
    Unavailable,
    Version(u32),
}

impl vstd::std_specs::convert::FromSpecImpl<u32> for FirmwareVersion {
    open spec fn obeys_from_spec() -> bool {
        true
    }

    open spec fn from_spec(v: u32) -> FirmwareVersion {
        if v == 0 {
            FirmwareVersion::Unavailable
        } else {
            FirmwareVersion::Version(v)
        }
    }
}

impl From<u32> for FirmwareVersion {
    fn from(value: u32) -> (r: FirmwareVersion) {
        if value == 0 {
            FirmwareVersion::Unavailable
        } else {
            FirmwareVersion::Version(value)
        }
    }
}

/// Represents possible variants for used GPU memory.
#[derive(Debug, Clone, Copy, PartialEq, Eq, Hash)]
pub enum UsedGpuMemory {
    /// Under WDDM, `NVML_VALUE_NOT_AVAILABLE` is always reported because
    /// Windows KMD manages all the memory, not the NVIDIA driver.
    Unavailable,
    /// Memory used in bytes.
    Used(u64),
}

impl vstd::std_specs::convert::FromSpecImpl<u64> for UsedGpuMemory {
    open spec fn obeys_from_spec() -> bool {
        true
    }

    open spec fn from_spec(v: u64) -> UsedGpuMemory {
        if v == NVML_VALUE_NOT_AVAILABLE_U64 {
            UsedGpuMemory::Unavailable
        } else {
            UsedGpuMemory::Used(v)
        }
    }
}

impl From<u64> for UsedGpuMemory {
    fn from(value: u64) -> (r: UsedGpuMemory) {
        if value == NVML_VALUE_NOT_AVAILABLE_U64 {
            UsedGpuMemory::Unavailable
        } else {
            UsedGpuMemory::Used(value)
        }
    }
}

/// The contents of an `nvmlValue_t` union, each member read as a plain value.
///
/// `d_val` holds the bit pattern of the `double` member.
#[derive(Debug, Clone, Copy, PartialEq, Eq, Hash)]
pub struct NvmlValue {
    pub d_val: u64,
    pub ui_val: u32,
    pub ul_val: u64,
    pub ull_val: u64,
    pub sll_val: i64,
}

/// Represents different types of sample values.
#[derive(Debug, Clone, Copy, PartialEq, Eq, Hash)]
pub enum SampleValue {
    /// A `double`, held as its IEEE 754 bit pattern (`f64::from_bits` gives the value).
    F64(u64),
    U32(u32),
    U64(u64),
    I64(i64),
}

impl SampleValue {
    /// The sample value that a union holds, read as the member that `tag` names.
    pub open spec fn of_tag_and_union(tag: SampleValueType, union: NvmlValue) -> SampleValue {
        match tag {
            SampleValueType::Double => SampleValue::F64(union.d_val),
            SampleValueType::UnsignedInt => SampleValue::U32(union.ui_val),
            SampleValueType::UnsignedLong => SampleValue::U32(union.ul_val as u32),
            SampleValueType::UnsignedLongLong => SampleValue::U64(union.ull_val),
            SampleValueType::SignedLongLong => SampleValue::I64(union.sll_val),
        }
    }

    /// Reads the union member that `tag` names.
    ///
    /// NVML supports 32-bit Linux, where `unsigned long` is 32 bits wide, and so
    /// never returns anything larger in that member: it is read as a `u32`.
    pub fn from_tag_and_union(tag: &SampleValueType, union: NvmlValue) -> (r: SampleValue)
        ensures
            r == SampleValue::of_tag_and_union(*tag, union),
    {
        match tag {
            SampleValueType::Double => SampleValue::F64(union.d_val),
            SampleValueType::UnsignedInt => SampleValue::U32(union.ui_val),
            SampleValueType::UnsignedLong => SampleValue::U32(union.ul_val as u32),
            SampleValueType::UnsignedLongLong => SampleValue::U64(union.ull_val),
            SampleValueType::SignedLongLong => SampleValue::I64(union.sll_val),
        }
    }
}

/// A setting for locking GPU clocks.
#[derive(Debug, Clone, Copy, PartialEq, Eq, Hash)]
pub enum GpuLockedClocksSetting {
    /// Numeric setting that allows you to explicitly define minimum and
    /// maximum clock frequencies.
    Numeric { min_clock_mhz: u32, max_clock_mhz: u32 },
    /// Symbolic setting that allows you to define lower and upper bounds for
    /// clock speed with various possibilities.
    ///
    /// Not all combinations of `lower_bound` and `upper_bound` are valid.
    Symbolic { lower_bound: ClockLimitId, upper_bound: ClockLimitId },
}

impl GpuLockedClocksSetting {
    /// Returns `(min_clock_mhz, max_clock_mhz)`.
    pub fn into_min_and_max_clocks(self) -> (r: (u32, u32))
        ensures
            r == (match self {
                GpuLockedClocksSetting::Numeric { min_clock_mhz, max_clock_mhz } => (
                    min_clock_mhz,
                    max_clock_mhz,
                ),
                GpuLockedClocksSetting::Symbolic { lower_bound, upper_bound } => (
                    lower_bound.c_value(),
                    upper_bound.c_value(),
                ),
            }),
    {
        match self {
            GpuLockedClocksSetting::Numeric { min_clock_mhz, max_clock_mhz } => (
                min_clock_mhz,
                max_clock_mhz,
            ),
            GpuLockedClocksSetting::Symbolic { lower_bound, upper_bound } => (
                lower_bound.as_c(),
                upper_bound.as_c(),
            ),
        }
    }
}

/// Returned by `Device::bus_type()`.
#[derive(Debug, Clone, Copy, PartialEq, Eq, Hash)]
pub enum BusType {
    /// Unknown bus type.
    Unknown,
    /// PCI (Peripheral Component Interconnect) bus type.
    Pci,
    /// PCIE (Peripheral Component Interconnect Express) bus type.
    Pcie,
    /// FPCI (Fast Peripheral Component Interconnect) bus type.
    Fpci,
    /// AGP (Accelerated Graphics Port) bus type.
    Agp,
}

impl CEnumMapping for BusType {
    open spec fn c_value(self) -> u32 {
        match self {
            BusType::Unknown => NVML_BUS_TYPE_UNKNOWN,
            BusType::Pci => NVML_BUS_TYPE_PCI,
            BusType::Pcie => NVML_BUS_TYPE_PCIE,
            BusType::Fpci => NVML_BUS_TYPE_FPCI,
            BusType::Agp => NVML_BUS_TYPE_AGP,
        }
    }

    open spec fn from_c(value: u32) -> Option<BusType> {
        if value == NVML_BUS_TYPE_UNKNOWN {
            Some(BusType::Unknown)
        } else if value == NVML_BUS_TYPE_PCI {
            Some(BusType::Pci)
        } else if value == NVML_BUS_TYPE_PCIE {
            Some(BusType::Pcie)
        } else if value == NVML_BUS_TYPE_FPCI {
            Some(BusType::Fpci)
        } else if value == NVML_BUS_TYPE_AGP {
            Some(BusType::Agp)
        } else {
            None
        }
    }

    proof fn lemma_c_round_trip(self, value: u32) {
    }
}

impl BusType {
    /// Returns the C constant equivalent for this variant.
    pub fn as_c(&self) -> (c: u32)
        ensures
            c == self.c_value(),
    {
        match self {
            BusType::Unknown => NVML_BUS_TYPE_UNKNOWN,
            BusType::Pci => NVML_BUS_TYPE_PCI,
            BusType::Pcie => NVML_BUS_TYPE_PCIE,
            BusType::Fpci => NVML_BUS_TYPE_FPCI,
            BusType::Agp => NVML_BUS_TYPE_AGP,
        }
    }

    /// Converts a C value into the variant that it stands for.
    ///
    /// # Errors
    ///
    /// * `UnexpectedVariant`, if no variant stands for `value`
    pub fn try_from(value: u32) -> (r: Result<BusType, NvmlError>)
        ensures
            r == from_c_result(BusType::from_c(value), value),
    {
        if value == NVML_BUS_TYPE_UNKNOWN {
            Ok(BusType::Unknown)
        } else if value == NVML_BUS_TYPE_PCI {
            Ok(BusType::Pci)
        } else if value == NVML_BUS_TYPE_PCIE {
            Ok(BusType::Pcie)
        } else if value == NVML_BUS_TYPE_FPCI {
            Ok(BusType::Fpci)
        } else if value == NVML_BUS_TYPE_AGP {
            Ok(BusType::Agp)
        } else {
            Err(NvmlError::UnexpectedVariant(value))
        }
    }
}

/// Returned by `Device::power_source()`.
#[derive(Debug, Clone, Copy, PartialEq, Eq, Hash)]
pub enum PowerSource {
    /// AC power (receiving power from some external source).
    Ac,
    /// Battery power.
    Battery,
}

impl CEnumMapping for PowerSource {
    open spec fn c_value(self) -> u32 {
        match self {
            PowerSource::Ac => NVML_POWER_SOURCE_AC,
            PowerSource::Battery => NVML_POWER_SOURCE_BATTERY,
        }
    }

    open spec fn from_c(value: u32) -> Option<PowerSource> {
        if value == NVML_POWER_SOURCE_AC {
            Some(PowerSource::Ac)
        } else if value == NVML_POWER_SOURCE_BATTERY {
            Some(PowerSource::Battery)
        } else {
            None
        }
    }

    proof fn lemma_c_round_trip(self, value: u32) {
    }
}

impl PowerSource {
    /// Returns the C constant equivalent for this variant.
    pub fn as_c(&self) -> (c: u32)
        ensures
            c == self.c_value(),
    {
        match self {
            PowerSource::Ac => NVML_POWER_SOURCE_AC,
            PowerSource::Battery => NVML_POWER_SOURCE_BATTERY,
        }
    }

    /// Converts a C value into the variant that it stands for.
    ///
    /// # Errors
    ///
    /// * `UnexpectedVariant`, if no variant stands for `value`
    pub fn try_from(value: u32) -> (r: Result<PowerSource, NvmlError>)
        ensures
            r == from_c_result(PowerSource::from_c(value), value),
    {
        if value == NVML_POWER_SOURCE_AC {
            Ok(PowerSource::Ac)
        } else if value == NVML_POWER_SOURCE_BATTERY {
            Ok(PowerSource::Battery)
        } else {
            Err(NvmlError::UnexpectedVariant(value))
        }
    }
}

/// Returned by `Device::architecture()`: the simplified chip architecture
/// of the device.
#[derive(Debug, Clone, Copy, PartialEq, Eq, Hash)]
pub enum DeviceArchitecture {
    Kepler,
    Maxwell,
    Pascal,
    Volta,
    Turing,
    Ampere,
    /// Unknown device architecture (most likely something newer).
    Unknown,
}

impl CEnumMapping for DeviceArchitecture {
    open spec fn c_value(self) -> u32 {
        match self {
            DeviceArchitecture::Kepler => NVML_DEVICE_ARCH_KEPLER,
            DeviceArchitecture::Maxwell => NVML_DEVICE_ARCH_MAXWELL,
            DeviceArchitecture::Pascal => NVML_DEVICE_ARCH_PASCAL,
            DeviceArchitecture::Volta => NVML_DEVICE_ARCH_VOLTA,
            DeviceArchitecture::Turing => NVML_DEVICE_ARCH_TURING,
            DeviceArchitecture::Ampere => NVML_DEVICE_ARCH_AMPERE,
            DeviceArchitecture::Unknown => NVML_DEVICE_ARCH_UNKNOWN,
        }
    }

    open spec fn from_c(value: u32) -> Option<DeviceArchitecture> {
        if value == NVML_DEVICE_ARCH_KEPLER {
            Some(DeviceArchitecture::Kepler)
        } else if value == NVML_DEVICE_ARCH_MAXWELL {
            Some(DeviceArchitecture::Maxwell)
        } else if value == NVML_DEVICE_ARCH_PASCAL {
            Some(DeviceArchitecture::Pascal)
        } else if value == NVML_DEVICE_ARCH_VOLTA {
            Some(DeviceArchitecture::Volta)
        } else if value == NVML_DEVICE_ARCH_TURING {
            Some(DeviceArchitecture::Turing)
        } else if value == NVML_DEVICE_ARCH_AMPERE {
            Some(DeviceArchitecture::Ampere)
        } else if value == NVML_DEVICE_ARCH_UNKNOWN {
            Some(DeviceArchitecture::Unknown)
        } else {
            None
        }
    }

    proof fn lemma_c_round_trip(self, value: u32) {
    }
}

impl DeviceArchitecture {
    /// Returns the C constant equivalent for this variant.
    pub fn as_c(&self) -> (c: u32)
        ensures
            c == self.c_value(),
    {
        match self {
            DeviceArchitecture::Kepler => NVML_DEVICE_ARCH_KEPLER,
            DeviceArchitecture::Maxwell => NVML_DEVICE_ARCH_MAXWELL,
            DeviceArchitecture::Pascal => NVML_DEVICE_ARCH_PASCAL,
            DeviceArchitecture::Volta => NVML_DEVICE_ARCH_VOLTA,
            DeviceArchitecture::Turing => NVML_DEVICE_ARCH_TURING,
            DeviceArchitecture::Ampere => NVML_DEVICE_ARCH_AMPERE,
            DeviceArchitecture::Unknown => NVML_DEVICE_ARCH_UNKNOWN,
        }
    }

    /// Converts a C value into the variant that it stands for.
    ///
    /// # Errors
    ///
    /// * `UnexpectedVariant`, if no variant stands for `value`
    pub fn try_from(value: u32) -> (r: Result<DeviceArchitecture, NvmlError>)
        ensures
            r == from_c_result(DeviceArchitecture::from_c(value), value),
    {
        if value == NVML_DEVICE_ARCH_KEPLER {
            Ok(DeviceArchitecture::Kepler)
        } else if value == NVML_DEVICE_ARCH_MAXWELL {
            Ok(DeviceArchitecture::Maxwell)
        } else if value == NVML_DEVICE_ARCH_PASCAL {
            Ok(DeviceArchitecture::Pascal)
        } else if value == NVML_DEVICE_ARCH_VOLTA {
            Ok(DeviceArchitecture::Volta)
        } else if value == NVML_DEVICE_ARCH_TURING {
            Ok(DeviceArchitecture::Turing)
        } else if value == NVML_DEVICE_ARCH_AMPERE {
            Ok(DeviceArchitecture::Ampere)
        } else if value == NVML_DEVICE_ARCH_UNKNOWN {
            Ok(DeviceArchitecture::Unknown)
        } else {
            Err(NvmlError::UnexpectedVariant(value))
        }
    }
}

impl DeviceArchitecture {
    /// The name under which this architecture is displayed.
    pub fn name(&self) -> (s: &'static str)
        ensures
            s@ == (match self {
                DeviceArchitecture::Kepler => "Kepler"@,
                DeviceArchitecture::Maxwell => "Maxwell"@,
                DeviceArchitecture::Pascal => "Pascal"@,
                DeviceArchitecture::Volta => "Volta"@,
                DeviceArchitecture::Turing => "Turing"@,
                DeviceArchitecture::Ampere => "Ampere"@,
                DeviceArchitecture::Unknown => "Unknown"@,
            }),
    {
        match self {
            DeviceArchitecture::Kepler => "Kepler",
            DeviceArchitecture::Maxwell => "Maxwell",
            DeviceArchitecture::Pascal => "Pascal",
            DeviceArchitecture::Volta => "Volta",
            DeviceArchitecture::Turing => "Turing",
            DeviceArchitecture::Ampere => "Ampere",
            DeviceArchitecture::Unknown => "Unknown",
        }
    }
}

/// The C values of `BusType` are those of NVML's `nvmlBusType_t`: Unknown 0, Pci 1, Pcie 2, Fpci 3, Agp 4;
/// each converts back to its variant, and no other value stands for one.
pub proof fn lemma_bus_type_c_values()
    ensures
        BusType::Unknown.c_value() == 0u32,
        BusType::from_c(0u32) == Some(BusType::Unknown),
        BusType::Pci.c_value() == 1u32,
        BusType::from_c(1u32) == Some(BusType::Pci),
        BusType::Pcie.c_value() == 2u32,
        BusType::from_c(2u32) == Some(BusType::Pcie),
        BusType::Fpci.c_value() == 3u32,
        BusType::from_c(3u32) == Some(BusType::Fpci),
        BusType::Agp.c_value() == 4u32,
        BusType::from_c(4u32) == Some(BusType::Agp),
        forall|v: u32| #[trigger] BusType::from_c(v) is Some ==> (v == 0u32 || v == 1u32 || v == 2u32 || v == 3u32 || v == 4u32),
{
}

/// The C values of `PowerSource` are those of NVML's `nvmlPowerSource_t`: Ac 0, Battery 1;
/// each converts back to its variant, and no other value stands for one.
pub proof fn lemma_power_source_c_values()
    ensures
        PowerSource::Ac.c_value() == 0u32,
        PowerSource::from_c(0u32) == Some(PowerSource::Ac),
        PowerSource::Battery.c_value() == 1u32,
        PowerSource::from_c(1u32) == Some(PowerSource::Battery),
        forall|v: u32| #[trigger] PowerSource::from_c(v) is Some ==> (v == 0u32 || v == 1u32),
{
}

/// The C values of `DeviceArchitecture` are those of NVML's `nvmlDeviceArchitecture_t`: Kepler 2, Maxwell 3, Pascal 4, Volta 5, Turing 6, Ampere 7, Unknown 0xffff_ffff;
/// each converts back to its variant, and no other value stands for one.
pub proof fn lemma_device_architecture_c_values()
    ensures
        DeviceArchitecture::Kepler.c_value() == 2u32,
        DeviceArchitecture::from_c(2u32) == Some(DeviceArchitecture::Kepler),
        DeviceArchitecture::Maxwell.c_value() == 3u32,
        DeviceArchitecture::from_c(3u32) == Some(DeviceArchitecture::Maxwell),
        DeviceArchitecture::Pascal.c_value() == 4u32,
        DeviceArchitecture::from_c(4u32) == Some(DeviceArchitecture::Pascal),
        DeviceArchitecture::Volta.c_value() == 5u32,
        DeviceArchitecture::from_c(5u32) == Some(DeviceArchitecture::Volta),
        DeviceArchitecture::Turing.c_value() == 6u32,
        DeviceArchitecture::from_c(6u32) == Some(DeviceArchitecture::Turing),
        DeviceArchitecture::Ampere.c_value() == 7u32,
        DeviceArchitecture::from_c(7u32) == Some(DeviceArchitecture::Ampere),
        DeviceArchitecture::Unknown.c_value() == 0xffff_ffffu32,
        DeviceArchitecture::from_c(0xffff_ffffu32) == Some(DeviceArchitecture::Unknown),
        forall|v: u32| #[trigger] DeviceArchitecture::from_c(v) is Some ==> (v == 2u32 || v == 3u32 || v == 4u32 || v == 5u32 || v == 6u32 || v == 7u32 || v == 0xffff_ffffu32),
{
}

/// A sample value is read from the union member that its type names: a double
/// from `dVal`, an unsigned int from `uiVal`, an unsigned long from `ulVal`
/// (cut to 32 bits), an unsigned long long from `ullVal` and a signed long long
/// from `sllVal`.
pub proof fn lemma_sample_value_reads_named_member(u: NvmlValue)
    ensures
        SampleValue::of_tag_and_union(SampleValueType::Double, u) == SampleValue::F64(u.d_val),
        SampleValue::of_tag_and_union(SampleValueType::UnsignedInt, u) == SampleValue::U32(u.ui_val),
        SampleValue::of_tag_and_union(SampleValueType::UnsignedLong, u) == SampleValue::U32(
            (u.ul_val % 0x1_0000_0000) as u32,
        ),
        SampleValue::of_tag_and_union(SampleValueType::UnsignedLongLong, u) == SampleValue::U64(
            u.ull_val,
        ),
        SampleValue::of_tag_and_union(SampleValueType::SignedLongLong, u) == SampleValue::I64(
            u.sll_val,
        ),
{
    let v = u.ul_val;
    assert(v as u32 == (v % 0x1_0000_0000) as u32) by (bit_vector);
}

/// A firmware version of 0 means that it is unavailable; any other value is
/// the version.
pub proof fn lemma_firmware_version_values(v: u32)
    ensures
        <FirmwareVersion as vstd::std_specs::convert::FromSpec<u32>>::from_spec(0u32)
            == FirmwareVersion::Unavailable,
        v != 0 ==> <FirmwareVersion as vstd::std_specs::convert::FromSpec<u32>>::from_spec(v)
            == FirmwareVersion::Version(v),
{
}

/// Used GPU memory of `u64::MAX` (NVML's "value not available") means that it
/// is unavailable; any other value is the amount used.
pub proof fn lemma_used_gpu_memory_values(v: u64)
    ensures
        <UsedGpuMemory as vstd::std_specs::convert::FromSpec<u64>>::from_spec(0xffff_ffff_ffff_ffffu64)
            == UsedGpuMemory::Unavailable,
        v != 0xffff_ffff_ffff_ffffu64 ==> <UsedGpuMemory as vstd::std_specs::convert::FromSpec<
            u64,
        >>::from_spec(v) == UsedGpuMemory::Used(v),
{
}

} // verus!
