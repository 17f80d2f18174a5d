use nvml_wrapper::enum_wrappers::device::{
    Api, Brand, BridgeChip, Clock, ClockLimitId, DriverModel, EccCounter, MemoryError,
    OperationMode, SampleValueType,
};
use nvml_wrapper::enum_wrappers::nv_link::{UtilizationCountPacketTypes, UtilizationCountUnit};
use nvml_wrapper::enum_wrappers::unit::{FanState, LedColor};
use nvml_wrapper::enum_wrappers::{bool_from_state, state_from_bool};
use nvml_wrapper::enums::device::{
    BusType, DeviceArchitecture, FirmwareVersion, GpuLockedClocksSetting, NvmlValue, PowerSource,
    SampleValue, UsedGpuMemory,
};
use nvml_wrapper::enums::unit::{LedState, TemperatureReading};
use nvml_wrapper::error::NvmlError;
use nvml_wrapper::struct_wrappers::unit::RawLedState;

#[test]
fn api_round_trip() {
    for v in [Api::ApplicationClocks, Api::AutoBoostedClocks] {
        assert_eq!(Api::try_from(v.as_c()), Ok(v));
    }
    assert_eq!(Api::AutoBoostedClocks.as_c(), 1);
    assert_eq!(Api::try_from(2), Err(NvmlError::UnexpectedVariant(2)));
}

#[test]
fn clock_round_trip() {
    for v in [Clock::Graphics, Clock::SM, Clock::Memory, Clock::Video] {
        assert_eq!(Clock::try_from(v.as_c()), Ok(v));
    }
    assert_eq!(Clock::Memory.as_c(), 2);
    assert_eq!(Clock::try_from(4), Err(NvmlError::UnexpectedVariant(4)));
}

#[test]
fn brand_round_trip() {
    for v in [Brand::Unknown, Brand::Quadro, Brand::Tesla, Brand::NVS, Brand::GRID, Brand::GeForce] {
        assert_eq!(Brand::try_from(v.as_c()), Ok(v));
    }
    assert_eq!(Brand::GeForce.as_c(), 5);
    assert_eq!(Brand::try_from(6), Err(NvmlError::UnexpectedVariant(6)));
}

#[test]
fn small_device_enums_round_trip() {
    for v in [BridgeChip::PLX, BridgeChip::BRO4] {
        assert_eq!(BridgeChip::try_from(v.as_c()), Ok(v));
    }
    for v in [MemoryError::Corrected, MemoryError::Uncorrected] {
        assert_eq!(MemoryError::try_from(v.as_c()), Ok(v));
    }
    for v in [EccCounter::Volatile, EccCounter::Aggregate] {
        assert_eq!(EccCounter::try_from(v.as_c()), Ok(v));
    }
    for v in [DriverModel::WDDM, DriverModel::WDM] {
        assert_eq!(DriverModel::try_from(v.as_c()), Ok(v));
    }
    for v in [OperationMode::AllOn, OperationMode::Compute, OperationMode::LowDP] {
        assert_eq!(OperationMode::try_from(v.as_c()), Ok(v));
    }
    assert_eq!(BridgeChip::try_from(2), Err(NvmlError::UnexpectedVariant(2)));
    assert_eq!(MemoryError::try_from(2), Err(NvmlError::UnexpectedVariant(2)));
    assert_eq!(EccCounter::try_from(2), Err(NvmlError::UnexpectedVariant(2)));
    assert_eq!(DriverModel::try_from(2), Err(NvmlError::UnexpectedVariant(2)));
    assert_eq!(OperationMode::try_from(3), Err(NvmlError::UnexpectedVariant(3)));
}

#[test]
fn sample_value_type_round_trip() {
    for v in [
        SampleValueType::Double,
        SampleValueType::UnsignedInt,
        SampleValueType::UnsignedLong,
        SampleValueType::UnsignedLongLong,
        SampleValueType::SignedLongLong,
    ] {
        assert_eq!(SampleValueType::try_from(v.as_c()), Ok(v));
    }
    assert_eq!(SampleValueType::SignedLongLong.as_c(), 4);
    assert_eq!(SampleValueType::try_from(5), Err(NvmlError::UnexpectedVariant(5)));
}

#[test]
fn clock_limit_id_values() {
    assert_eq!(ClockLimitId::Range.as_c(), 0xffff_ff00);
    assert_eq!(ClockLimitId::Tdp.as_c(), 0xffff_ff01);
    assert_eq!(ClockLimitId::Unlimited.as_c(), 0xffff_ff02);
    for v in [ClockLimitId::Range, ClockLimitId::Tdp, ClockLimitId::Unlimited] {
        assert_eq!(ClockLimitId::try_from(v.as_c()), Ok(v));
    }
    assert_eq!(ClockLimitId::try_from(0), Err(NvmlError::UnexpectedVariant(0)));
}

#[test]
fn nv_link_enums_round_trip() {
    for v in [UtilizationCountUnit::Cycles, UtilizationCountUnit::Packets, UtilizationCountUnit::Bytes] {
        assert_eq!(UtilizationCountUnit::try_from(v.as_c()), Ok(v));
    }
    assert_eq!(UtilizationCountUnit::try_from(3), Err(NvmlError::UnexpectedVariant(3)));
    let packet_types = [
        UtilizationCountPacketTypes::NoOp,
        UtilizationCountPacketTypes::Read,
        UtilizationCountPacketTypes::Write,
        UtilizationCountPacketTypes::Ratom,
        UtilizationCountPacketTypes::NRatom,
        UtilizationCountPacketTypes::Flush,
        UtilizationCountPacketTypes::WithData,
        UtilizationCountPacketTypes::NoData,
        UtilizationCountPacketTypes::All,
    ];
    for v in packet_types {
        assert_eq!(UtilizationCountPacketTypes::try_from(v.as_c()), Ok(v));
    }
    assert_eq!(UtilizationCountPacketTypes::Read.as_c(), 0x2);
    assert_eq!(UtilizationCountPacketTypes::All.as_c(), 0xff);
    assert_eq!(UtilizationCountPacketTypes::try_from(0x3), Err(NvmlError::UnexpectedVariant(0x3)));
}

#[test]
fn unit_enums_round_trip() {
    for v in [FanState::Normal, FanState::Failed] {
        assert_eq!(FanState::try_from(v.as_c()), Ok(v));
    }
    for v in [LedColor::Green, LedColor::Amber] {
        assert_eq!(LedColor::try_from(v.as_c()), Ok(v));
    }
    assert_eq!(FanState::try_from(2), Err(NvmlError::UnexpectedVariant(2)));
    assert_eq!(LedColor::try_from(7), Err(NvmlError::UnexpectedVariant(7)));
}

#[test]
fn enable_state_conversions() {
    assert_eq!(bool_from_state(0), Ok(false));
    assert_eq!(bool_from_state(1), Ok(true));
    assert_eq!(bool_from_state(2), Err(NvmlError::UnexpectedVariant(2)));
    assert_eq!(state_from_bool(true), 1);
    assert_eq!(state_from_bool(false), 0);
    for b in [true, false] {
        assert_eq!(bool_from_state(state_from_bool(b)), Ok(b));
    }
}

#[test]
fn firmware_version_from_raw() {
    assert_eq!(FirmwareVersion::from(0u32), FirmwareVersion::Unavailable);
    assert_eq!(FirmwareVersion::from(42u32), FirmwareVersion::Version(42));
}

#[test]
fn used_gpu_memory_from_raw() {
    assert_eq!(UsedGpuMemory::from(u64::MAX), UsedGpuMemory::Unavailable);
    assert_eq!(UsedGpuMemory::from(1024u64), UsedGpuMemory::Used(1024));
    assert_eq!(UsedGpuMemory::from(0u64), UsedGpuMemory::Used(0));
}

#[test]
fn sample_value_reads_tagged_member() {
    let union = NvmlValue {
        d_val: 2.5f64.to_bits(),
        ui_val: 7,
        ul_val: 0x1_0000_0005,
        ull_val: 1 << 40,
        sll_val: -3,
    };
    assert_eq!(
        SampleValue::from_tag_and_union(&SampleValueType::Double, union),
        SampleValue::F64(2.5f64.to_bits())
    );
    assert_eq!(SampleValue::from_tag_and_union(&SampleValueType::UnsignedInt, union), SampleValue::U32(7));
    assert_eq!(SampleValue::from_tag_and_union(&SampleValueType::UnsignedLong, union), SampleValue::U32(5));
    assert_eq!(
        SampleValue::from_tag_and_union(&SampleValueType::UnsignedLongLong, union),
        SampleValue::U64(1 << 40)
    );
    assert_eq!(SampleValue::from_tag_and_union(&SampleValueType::SignedLongLong, union), SampleValue::I64(-3));
}

#[test]
fn locked_clocks_setting_numbers() {
    let numeric = GpuLockedClocksSetting::Numeric { min_clock_mhz: 300, max_clock_mhz: 1500 };
    assert_eq!(numeric.into_min_and_max_clocks(), (300, 1500));
    let symbolic = GpuLockedClocksSetting::Symbolic {
        lower_bound: ClockLimitId::Tdp,
        upper_bound: ClockLimitId::Unlimited,
    };
    assert_eq!(symbolic.into_min_and_max_clocks(), (0xffff_ff01, 0xffff_ff02));
}

#[test]
fn bus_type_and_power_source_round_trip() {
    for v in [BusType::Unknown, BusType::Pci, BusType::Pcie, BusType::Fpci, BusType::Agp] {
        assert_eq!(BusType::try_from(v.as_c()), Ok(v));
    }
    assert_eq!(BusType::Agp.as_c(), 4);
    assert_eq!(BusType::try_from(5), Err(NvmlError::UnexpectedVariant(5)));
    for v in [PowerSource::Ac, PowerSource::Battery] {
        assert_eq!(PowerSource::try_from(v.as_c()), Ok(v));
    }
    assert_eq!(PowerSource::try_from(2), Err(NvmlError::UnexpectedVariant(2)));
}

#[test]
fn device_architecture_values_and_names() {
    let all = [
        (DeviceArchitecture::Kepler, 2u32, "Kepler"),
        (DeviceArchitecture::Maxwell, 3, "Maxwell"),
        (DeviceArchitecture::Pascal, 4, "Pascal"),
        (DeviceArchitecture::Volta, 5, "Volta"),
        (DeviceArchitecture::Turing, 6, "Turing"),
        (DeviceArchitecture::Ampere, 7, "Ampere"),
        (DeviceArchitecture::Unknown, 0xffff_ffff, "Unknown"),
    ];
    for (arch, value, name) in all {
        assert_eq!(arch.as_c(), value);
        assert_eq!(DeviceArchitecture::try_from(value), Ok(arch));
        assert_eq!(arch.name(), name);
    }
    assert_eq!(DeviceArchitecture::try_from(1), Err(NvmlError::UnexpectedVariant(1)));
}

#[test]
fn temperature_reading_values() {
    assert_eq!(TemperatureReading::Intake.as_c(), 0);
    assert_eq!(TemperatureReading::Exhaust.as_c(), 1);
    assert_eq!(TemperatureReading::Board.as_c(), 2);
}

fn cause_buffer(text: &[u8]) -> Vec<u8> {
    let mut buf = text.to_vec();
    buf.resize(256, 0);
    buf
}

#[test]
fn led_state_green_ignores_cause() {
    let raw = RawLedState { cause: vec![0xff, 0xfe], color: 0 };
    assert_eq!(LedState::try_from(raw), Ok(LedState::Green));
}

#[test]
fn led_state_amber_reads_cause() {
    let raw = RawLedState { cause: cause_buffer(b"PSU failure"), color: 1 };
    assert_eq!(LedState::try_from(raw), Ok(LedState::Amber("PSU failure".to_string())));
}

#[test]
fn led_state_amber_with_invalid_cause() {
    let raw = RawLedState { cause: cause_buffer(&[0xc3, 0x28]), color: 1 };
    assert_eq!(LedState::try_from(raw), Err(NvmlError::Utf8Error { valid_up_to: 0 }));
}

#[test]
fn led_state_unknown_color() {
    let raw = RawLedState { cause: cause_buffer(b""), color: 9 };
    assert_eq!(LedState::try_from(raw), Err(NvmlError::UnexpectedVariant(9)));
}
