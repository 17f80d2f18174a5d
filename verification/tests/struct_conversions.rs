use nvml_wrapper::bindings::NVML_DEVICE_PCI_BUS_ID_BUFFER_SIZE;
use nvml_wrapper::enum_wrappers::device::{BridgeChip, SampleValueType};
use nvml_wrapper::enum_wrappers::nv_link::UtilizationCountUnit;
use nvml_wrapper::enums::device::{FirmwareVersion, NvmlValue, SampleValue, UsedGpuMemory};
use nvml_wrapper::error::NvmlError;
use nvml_wrapper::struct_wrappers::device::{
    AccountingStats, BAR1MemoryInfo, BridgeChipHierarchy, BridgeChipInfo, EccErrorCounts,
    MemoryInfo, PciInfo, ProcessInfo, RawAccountingStats, RawBar1Memory, RawBridgeChipHierarchy,
    RawBridgeChipInfo, RawEccErrorCounts, RawMemory, RawPciInfo, RawProcessInfo, RawSample,
    RawUtilization, RawViolationTime, Sample, Utilization, ViolationTime,
};
use nvml_wrapper::struct_wrappers::nv_link::{RawUtilizationControl, UtilizationControl};
use nvml_wrapper::struct_wrappers::unit::{HwbcEntry, RawHwbcEntry};
use nvml_wrapper::struct_wrappers::{
    string_from_c_buffer, BlacklistDeviceInfo, RawBlacklistDeviceInfo,
};

fn c_buffer(text: &[u8], size: usize) -> Vec<u8> {
    let mut buf = text.to_vec();
    buf.resize(size, 0);
    buf
}

fn raw_pci_info(bus_id: &[u8]) -> RawPciInfo {
    RawPciInfo {
        bus_id: c_buffer(bus_id, NVML_DEVICE_PCI_BUS_ID_BUFFER_SIZE),
        domain: 0,
        bus: 0x65,
        device: 0,
        pci_device_id: 0x1db4_10de,
        pci_sub_system_id: 0x1212_10de,
        reserved0: u32::MAX,
        reserved1: u32::MAX,
        reserved2: u32::MAX,
        reserved3: u32::MAX,
    }
}

#[test]
fn pci_info_from_to_c() {
    let raw = raw_pci_info(b"0000:65:00.0");
    let converted = PciInfo::try_from(raw.clone(), true)
        .expect("wrapped pci info")
        .try_into_c()
        .expect("converted c pci info");

    assert_eq!(converted.bus_id, raw.bus_id);
    assert_eq!(converted.domain, raw.domain);
    assert_eq!(converted.bus, raw.bus);
    assert_eq!(converted.device, raw.device);
    assert_eq!(converted.pci_device_id, raw.pci_device_id);
    assert_eq!(converted.pci_sub_system_id, raw.pci_sub_system_id);
    assert_eq!(converted.reserved0, raw.reserved0);
    assert_eq!(converted.reserved1, raw.reserved1);
    assert_eq!(converted.reserved2, raw.reserved2);
    assert_eq!(converted.reserved3, raw.reserved3);
}

#[test]
fn pci_info_reads_fields() {
    let info = PciInfo::try_from(raw_pci_info(b"0000:65:00.0"), true).unwrap();
    assert_eq!(info.bus_id, "0000:65:00.0");
    assert_eq!(info.bus, 0x65);
    assert_eq!(info.domain, 0);
    assert_eq!(info.device, 0);
    assert_eq!(info.pci_device_id, 0x1db4_10de);
    assert_eq!(info.pci_sub_system_id, Some(0x1212_10de));
}

#[test]
fn pci_info_without_sub_system_id() {
    let info = PciInfo::try_from(raw_pci_info(b"0000:01:00.0"), false).unwrap();
    assert_eq!(info.pci_sub_system_id, None);
    let raw = info.try_into_c().unwrap();
    assert_eq!(raw.pci_sub_system_id, 0);
}

#[test]
fn pci_info_invalid_bus_id() {
    let r = PciInfo::try_from(raw_pci_info(&[0x30, 0xff, 0x30]), true);
    assert_eq!(r, Err(NvmlError::Utf8Error { valid_up_to: 1 }));
}

fn pci_info_with_bus_id(bus_id: &str) -> PciInfo {
    PciInfo {
        bus: 1,
        bus_id: bus_id.to_string(),
        device: 2,
        domain: 3,
        pci_device_id: 4,
        pci_sub_system_id: Some(5),
    }
}

#[test]
fn pci_info_to_c_pads_and_sets_reserved() {
    let raw = pci_info_with_bus_id("ab").try_into_c().unwrap();
    let mut expected = vec![b'a', b'b'];
    expected.resize(16, 0);
    assert_eq!(raw.bus_id, expected);
    assert_eq!((raw.bus, raw.device, raw.domain), (1, 2, 3));
    assert_eq!((raw.pci_device_id, raw.pci_sub_system_id), (4, 5));
    assert_eq!(raw.reserved0, u32::MAX);
    assert_eq!(raw.reserved3, u32::MAX);
}

#[test]
fn pci_info_to_c_longest_bus_id() {
    let raw = pci_info_with_bus_id("0123456789abcde").try_into_c().unwrap();
    assert_eq!(&raw.bus_id[..15], b"0123456789abcde");
    assert_eq!(raw.bus_id[15], 0);
    assert_eq!(raw.bus_id.len(), 16);
}

#[test]
fn pci_info_to_c_too_long() {
    let r = pci_info_with_bus_id("0123456789abcdef").try_into_c();
    assert_eq!(r, Err(NvmlError::StringTooLong { max_len: 16, actual_len: 17 }));
}

#[test]
fn pci_info_to_c_interior_nul() {
    let r = pci_info_with_bus_id("ab\0cd").try_into_c();
    assert_eq!(r, Err(NvmlError::NulError(2, b"ab\0cd".to_vec())));
    let r = pci_info_with_bus_id("0123456789abcdefgh\0").try_into_c();
    assert_eq!(r, Err(NvmlError::NulError(18, b"0123456789abcdefgh\0".to_vec())));
}

#[test]
fn pci_info_to_c_round_trip_law() {
    let info = pci_info_with_bus_id("0000:af:00.0");
    let raw = info.clone().try_into_c().unwrap();
    let back = PciInfo::try_from(raw, true).unwrap();
    assert_eq!(back, info);
}

#[test]
fn c_string_reading() {
    assert_eq!(string_from_c_buffer(b"hello\0world\0"), Ok("hello".to_string()));
    assert_eq!(string_from_c_buffer(b"\0abc"), Ok(String::new()));
    assert_eq!(string_from_c_buffer("h\u{e9}\0".as_bytes()), Ok("h\u{e9}".to_string()));
    assert_eq!(string_from_c_buffer(&[0xe2, 0x82, 0]), Err(NvmlError::Utf8Error { valid_up_to: 0 }));
}

#[test]
fn blacklist_device_info_reads_both_strings() {
    let raw = RawBlacklistDeviceInfo {
        pci_info: raw_pci_info(b"0000:02:00.0"),
        uuid: c_buffer(b"GPU-1234", 80),
    };
    let info = BlacklistDeviceInfo::try_from(raw).unwrap();
    assert_eq!(info.uuid, "GPU-1234");
    assert_eq!(info.pci_info.bus_id, "0000:02:00.0");
    assert_eq!(info.pci_info.pci_sub_system_id, Some(0x1212_10de));
}

#[test]
fn blacklist_device_info_bad_uuid() {
    let raw = RawBlacklistDeviceInfo {
        pci_info: raw_pci_info(b"0000:02:00.0"),
        uuid: c_buffer(&[0xff], 80),
    };
    assert_eq!(BlacklistDeviceInfo::try_from(raw), Err(NvmlError::Utf8Error { valid_up_to: 0 }));
}

#[test]
fn hwbc_entry_conversion() {
    let raw = RawHwbcEntry { hwbc_id: 3, firmware_version: c_buffer(b"1.2.3", 32) };
    assert_eq!(HwbcEntry::try_from(raw), Ok(HwbcEntry { id: 3, firmware_version: "1.2.3".to_string() }));
    let bad = RawHwbcEntry { hwbc_id: 3, firmware_version: c_buffer(&[0x80], 32) };
    assert_eq!(HwbcEntry::try_from(bad), Err(NvmlError::Utf8Error { valid_up_to: 0 }));
}

#[test]
fn plain_struct_conversions() {
    let bar1 = BAR1MemoryInfo::from(RawBar1Memory { bar1_total: 10, bar1_free: 4, bar1_used: 6 });
    assert_eq!(bar1, BAR1MemoryInfo { free: 4, total: 10, used: 6 });
    let ecc = EccErrorCounts::from(RawEccErrorCounts {
        l1_cache: 1,
        l2_cache: 2,
        device_memory: 3,
        register_file: 4,
    });
    assert_eq!(ecc, EccErrorCounts { device_memory: 3, l1_cache: 1, l2_cache: 2, register_file: 4 });
    let mem = MemoryInfo::from(RawMemory { total: 100, free: 30, used: 70 });
    assert_eq!(mem, MemoryInfo { free: 30, total: 100, used: 70 });
    let util = Utilization::from(RawUtilization { gpu: 55, memory: 12 });
    assert_eq!(util, Utilization { gpu: 55, memory: 12 });
    let v = ViolationTime::from(RawViolationTime { reference_time: 9, violation_time: 8 });
    assert_eq!(v, ViolationTime { reference_time: 9, violation_time: 8 });
}

#[test]
fn process_info_conversion() {
    let p = ProcessInfo::from(RawProcessInfo { pid: 42, used_gpu_memory: 2048 });
    assert_eq!(p, ProcessInfo { pid: 42, used_gpu_memory: UsedGpuMemory::Used(2048) });
    let q = ProcessInfo::from(RawProcessInfo { pid: 7, used_gpu_memory: u64::MAX });
    assert_eq!(q.used_gpu_memory, UsedGpuMemory::Unavailable);
}

#[test]
fn accounting_stats_conversion() {
    let raw = RawAccountingStats {
        gpu_utilization: 50,
        memory_utilization: 20,
        max_memory_usage: 4096,
        time: 100,
        start_time: 5,
        is_running: 1,
    };
    assert_eq!(
        AccountingStats::from(raw),
        AccountingStats {
            gpu_utilization: Some(50),
            is_running: true,
            max_memory_usage: Some(4096),
            memory_utilization: Some(20),
            start_time: 5,
            time: 100,
        }
    );
}

#[test]
fn accounting_stats_unavailable_values() {
    let raw = RawAccountingStats {
        gpu_utilization: u32::MAX,
        memory_utilization: u32::MAX,
        max_memory_usage: u64::MAX,
        time: 0,
        start_time: 0,
        is_running: 0,
    };
    let stats = AccountingStats::from(raw);
    assert_eq!(stats.gpu_utilization, None);
    assert_eq!(stats.memory_utilization, None);
    assert_eq!(stats.max_memory_usage, None);
    assert!(!stats.is_running);
    let other = RawAccountingStats { is_running: 2, ..raw };
    assert!(AccountingStats::from(other).is_running);
}

#[test]
fn sample_from_tag_and_struct() {
    let value = NvmlValue { d_val: 0, ui_val: 77, ul_val: 0, ull_val: 0, sll_val: 0 };
    let s = Sample::from_tag_and_struct(
        &SampleValueType::UnsignedInt,
        RawSample { time_stamp: 1234, sample_value: value },
    );
    assert_eq!(s, Sample { timestamp: 1234, value: SampleValue::U32(77) });
}

#[test]
fn bridge_chip_info_conversion() {
    let info = BridgeChipInfo::try_from(RawBridgeChipInfo { type_: 1, fw_version: 0 }).unwrap();
    assert_eq!(info, BridgeChipInfo { fw_version: FirmwareVersion::Unavailable, chip_type: BridgeChip::BRO4 });
    let info = BridgeChipInfo::try_from(RawBridgeChipInfo { type_: 0, fw_version: 3 }).unwrap();
    assert_eq!(info.fw_version, FirmwareVersion::Version(3));
    assert_eq!(info.chip_type, BridgeChip::PLX);
    assert_eq!(
        BridgeChipInfo::try_from(RawBridgeChipInfo { type_: 5, fw_version: 3 }),
        Err(NvmlError::UnexpectedVariant(5))
    );
}

#[test]
fn bridge_chip_hierarchy_conversion() {
    let raw = RawBridgeChipHierarchy {
        bridge_count: 2,
        bridge_chip_info: vec![
            RawBridgeChipInfo { type_: 0, fw_version: 1 },
            RawBridgeChipInfo { type_: 1, fw_version: 0 },
        ],
    };
    let h = BridgeChipHierarchy::try_from(raw).unwrap();
    assert_eq!(h.chip_count, 2);
    assert_eq!(
        h.chips_hierarchy,
        vec![
            BridgeChipInfo { fw_version: FirmwareVersion::Version(1), chip_type: BridgeChip::PLX },
            BridgeChipInfo { fw_version: FirmwareVersion::Unavailable, chip_type: BridgeChip::BRO4 },
        ]
    );
}

#[test]
fn bridge_chip_hierarchy_first_bad_entry() {
    let raw = RawBridgeChipHierarchy {
        bridge_count: 3,
        bridge_chip_info: vec![
            RawBridgeChipInfo { type_: 0, fw_version: 1 },
            RawBridgeChipInfo { type_: 8, fw_version: 0 },
            RawBridgeChipInfo { type_: 9, fw_version: 0 },
        ],
    };
    assert_eq!(BridgeChipHierarchy::try_from(raw), Err(NvmlError::UnexpectedVariant(8)));
}

#[test]
fn utilization_control_conversions() {
    let c = UtilizationControl::try_from(RawUtilizationControl { units: 2, pktfilter: 0x1ff }).unwrap();
    assert_eq!(c.units, UtilizationCountUnit::Bytes);
    assert_eq!(c.packet_filter.bits(), 0xff);
    let raw = c.as_c();
    assert_eq!(raw, RawUtilizationControl { units: 2, pktfilter: 0xff });
    assert_eq!(UtilizationControl::try_from(raw), Ok(c));
    assert_eq!(
        UtilizationControl::try_from(RawUtilizationControl { units: 3, pktfilter: 0 }),
        Err(NvmlError::UnexpectedVariant(3))
    );
}

#[test]
fn utf8_error_reports_valid_prefix() {
    assert_eq!(string_from_c_buffer(b"ab\xffcd\0"), Err(NvmlError::Utf8Error { valid_up_to: 2 }));
    assert_eq!(string_from_c_buffer("h\u{e9}".as_bytes().iter().chain(&[0xe9u8, 0]).cloned().collect::<Vec<u8>>().as_slice()), Err(NvmlError::Utf8Error { valid_up_to: 3 }));
}
