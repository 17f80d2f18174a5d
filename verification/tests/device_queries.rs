use nvml_wrapper::bindings::{
    NVML_ERROR_INSUFFICIENT_SIZE, NVML_ERROR_NOT_SUPPORTED, NVML_ERROR_NO_PERMISSION,
    NVML_ERROR_UNKNOWN, NVML_SUCCESS,
};
use nvml_wrapper::device::{
    auto_boosted_clocks_result, check_cpu_affinity_size, clocks_result, clocks_retry_size,
    count_from_single_slot_query, count_from_size_query, driver_model_result, ecc_mode_result,
    enable_state_result, event_types_result, event_types_strict_result,
    failed_registration_error, fetch_counted, flag_result, pci_info_result, remote_pci_info_result,
    samples_timestamp, supported_clocks, supported_graphics_clocks, supported_memory_clocks, list_result, operation_mode_result,
    process_infos_result, query_result, removal_outcome, removal_pci_info, samples_result,
    string_result, throttle_reasons_result, throttle_reasons_strict_result,
    SUPPORTED_GRAPHICS_CLOCKS_FIRST_SIZE, SUPPORTED_MEMORY_CLOCKS_FIRST_SIZE,
};
use nvml_wrapper::enum_wrappers::device::{DriverModel, OperationMode};
use nvml_wrapper::enums::device::{NvmlValue, SampleValue, UsedGpuMemory};
use nvml_wrapper::error::{Bits, NvmlError};
use nvml_wrapper::struct_wrappers::device::{
    PciInfo, ProcessInfo, RawPciInfo, RawProcessInfo, RawSample,
};
use nvml_wrapper::structs::{DriverModels, EccModeInfo, OperationModeInfo};
use std::cell::RefCell;
use nvml_wrapper::structs::device::{
    AutoBoostClocksEnabledInfo, DriverModelState, EccModeState, OperationModeState,
};

#[test]
fn query_passes_value_on_success() {
    assert_eq!(query_result(NVML_SUCCESS, 75u32), Ok(75));
    assert_eq!(query_result(NVML_ERROR_NOT_SUPPORTED, 75u32), Err(NvmlError::NotSupported));
}

#[test]
fn enable_state_and_flag_queries() {
    assert_eq!(enable_state_result(NVML_SUCCESS, 1), Ok(true));
    assert_eq!(enable_state_result(NVML_SUCCESS, 0), Ok(false));
    assert_eq!(enable_state_result(NVML_SUCCESS, 4), Err(NvmlError::UnexpectedVariant(4)));
    assert_eq!(enable_state_result(NVML_ERROR_NO_PERMISSION, 1), Err(NvmlError::NoPermission));
    assert_eq!(flag_result(NVML_SUCCESS, 0), Ok(false));
    assert_eq!(flag_result(NVML_SUCCESS, 3), Ok(true));
    assert_eq!(flag_result(NVML_ERROR_UNKNOWN, 3), Err(NvmlError::Unknown));
}

#[test]
fn paired_state_queries() {
    assert_eq!(
        auto_boosted_clocks_result(NVML_SUCCESS, 1, 0),
        Ok(AutoBoostClocksEnabledInfo { is_enabled: true, is_enabled_default: false })
    );
    assert_eq!(auto_boosted_clocks_result(NVML_SUCCESS, 1, 9), Err(NvmlError::UnexpectedVariant(9)));
    assert_eq!(
        ecc_mode_result(NVML_SUCCESS, 0, 1),
        Ok(EccModeState { currently_enabled: false, pending_enabled: true })
    );
    assert_eq!(ecc_mode_result(NVML_ERROR_NOT_SUPPORTED, 0, 1), Err(NvmlError::NotSupported));
    assert_eq!(
        driver_model_result(NVML_SUCCESS, 0, 1),
        Ok(DriverModelState { current: DriverModel::WDDM, pending: DriverModel::WDM })
    );
    assert_eq!(driver_model_result(NVML_SUCCESS, 2, 1), Err(NvmlError::UnexpectedVariant(2)));
    assert_eq!(
        operation_mode_result(NVML_SUCCESS, 1, 2),
        Ok(OperationModeState { current: OperationMode::Compute, pending: OperationMode::LowDP })
    );
    assert_eq!(operation_mode_result(NVML_SUCCESS, 1, 3), Err(NvmlError::UnexpectedVariant(3)));
}

#[test]
fn counting_queries() {
    assert_eq!(count_from_size_query(NVML_ERROR_INSUFFICIENT_SIZE, 5), Ok(5));
    assert_eq!(count_from_size_query(NVML_SUCCESS, 5), Ok(0));
    assert_eq!(count_from_size_query(NVML_ERROR_NOT_SUPPORTED, 5), Err(NvmlError::NotSupported));
    assert_eq!(count_from_single_slot_query(NVML_SUCCESS, 1), Ok(1));
    assert_eq!(count_from_single_slot_query(NVML_ERROR_INSUFFICIENT_SIZE, 4), Ok(4));
    assert_eq!(count_from_single_slot_query(NVML_ERROR_UNKNOWN, 4), Err(NvmlError::Unknown));
}

#[test]
fn list_queries_keep_reported_count() {
    assert_eq!(list_result(NVML_SUCCESS, 2, vec![10u32, 20, 30]), Ok(vec![10, 20]));
    assert_eq!(list_result(NVML_SUCCESS, 7, vec![10u32, 20, 30]), Ok(vec![10, 20, 30]));
    assert_eq!(list_result(NVML_SUCCESS, 0, vec![10u32]), Ok(vec![]));
    assert_eq!(list_result(NVML_ERROR_NOT_SUPPORTED, 1, vec![1u32]), Err(NvmlError::NotSupported));
}

#[test]
fn process_queries_convert_entries() {
    let raw = vec![
        RawProcessInfo { pid: 1, used_gpu_memory: 100 },
        RawProcessInfo { pid: 2, used_gpu_memory: u64::MAX },
        RawProcessInfo { pid: 3, used_gpu_memory: 300 },
    ];
    assert_eq!(
        process_infos_result(NVML_SUCCESS, 2, raw.clone()),
        Ok(vec![
            ProcessInfo { pid: 1, used_gpu_memory: UsedGpuMemory::Used(100) },
            ProcessInfo { pid: 2, used_gpu_memory: UsedGpuMemory::Unavailable },
        ])
    );
    assert_eq!(process_infos_result(NVML_ERROR_NO_PERMISSION, 2, raw), Err(NvmlError::NoPermission));
}

#[test]
fn clock_queries_and_retry() {
    assert_eq!(SUPPORTED_GRAPHICS_CLOCKS_FIRST_SIZE, 128);
    assert_eq!(SUPPORTED_MEMORY_CLOCKS_FIRST_SIZE, 16);
    let first = clocks_result(NVML_ERROR_INSUFFICIENT_SIZE, 200, vec![0u32; 128]);
    assert_eq!(first, Err(NvmlError::InsufficientSize(Some(200))));
    assert_eq!(clocks_retry_size(&first), Some(200));
    let ok = clocks_result(NVML_SUCCESS, 3, vec![1500u32, 1400, 1300, 0]);
    assert_eq!(ok, Ok(vec![1500, 1400, 1300]));
    assert_eq!(clocks_retry_size(&ok), None);
    assert_eq!(clocks_retry_size(&Err(NvmlError::InsufficientSize(None))), None);
    assert_eq!(clocks_retry_size(&Err(NvmlError::NotSupported)), None);
}

#[test]
fn cpu_affinity_size_check() {
    assert_eq!(check_cpu_affinity_size(0), Err(NvmlError::InsufficientSize(Some(1))));
    assert_eq!(check_cpu_affinity_size(1), Ok(()));
    assert_eq!(check_cpu_affinity_size(64), Ok(()));
}

#[test]
fn string_queries() {
    let mut buf = b"470.57.02".to_vec();
    buf.resize(80, 0);
    assert_eq!(string_result(NVML_SUCCESS, &buf), Ok("470.57.02".to_string()));
    assert_eq!(string_result(NVML_ERROR_NOT_SUPPORTED, &buf), Err(NvmlError::NotSupported));
    assert_eq!(string_result(NVML_SUCCESS, &[0xfe, 0]), Err(NvmlError::Utf8Error { valid_up_to: 0 }));
}

#[test]
fn throttle_reason_queries() {
    assert_eq!(throttle_reasons_result(NVML_SUCCESS, 0x21).map(|f| f.bits()), Ok(0x1));
    assert_eq!(
        throttle_reasons_strict_result(NVML_SUCCESS, 0x21),
        Err(NvmlError::IncorrectBits(Bits::U64(0x21)))
    );
    assert_eq!(throttle_reasons_strict_result(NVML_SUCCESS, 0x3).map(|f| f.bits()), Ok(0x3));
    assert_eq!(throttle_reasons_result(NVML_ERROR_NOT_SUPPORTED, 0).map(|f| f.bits()), Err(NvmlError::NotSupported));
}

#[test]
fn event_type_queries() {
    assert_eq!(event_types_result(NVML_SUCCESS, 0xff).map(|f| f.bits()), Ok(0x1f));
    assert_eq!(event_types_strict_result(NVML_SUCCESS, 0xff), Err(NvmlError::IncorrectBits(Bits::U64(0xff))));
    assert_eq!(event_types_strict_result(NVML_SUCCESS, 0x18).map(|f| f.bits()), Ok(0x18));
    assert_eq!(event_types_result(NVML_ERROR_UNKNOWN, 0).map(|f| f.bits()), Err(NvmlError::Unknown));
}

#[test]
fn sample_queries() {
    let value = NvmlValue { d_val: 0, ui_val: 0, ul_val: 0, ull_val: 99, sll_val: 0 };
    let samples = vec![
        RawSample { time_stamp: 1, sample_value: value },
        RawSample { time_stamp: 2, sample_value: NvmlValue { ull_val: 100, ..value } },
    ];
    let r = samples_result(NVML_SUCCESS, 3, samples.clone()).unwrap();
    assert_eq!(r.len(), 2);
    assert_eq!(r[0].timestamp, 1);
    assert_eq!(r[0].value, SampleValue::U64(99));
    assert_eq!(r[1].value, SampleValue::U64(100));
    assert_eq!(samples_result(NVML_SUCCESS, 7, samples.clone()), Err(NvmlError::UnexpectedVariant(7)));
    assert_eq!(samples_result(NVML_ERROR_NOT_SUPPORTED, 3, samples), Err(NvmlError::NotSupported));
}

#[test]
fn failed_registration_errors() {
    assert_eq!(failed_registration_error(NvmlError::NotSupported, Ok(())), NvmlError::NotSupported);
    assert_eq!(
        failed_registration_error(NvmlError::NotSupported, Err(NvmlError::Unknown)),
        NvmlError::SetReleaseFailed(Box::new(NvmlError::Unknown))
    );
}

#[test]
fn removal_decisions() {
    let info = PciInfo {
        bus: 1,
        bus_id: "0000:01:00.0".to_string(),
        device: 0,
        domain: 0,
        pci_device_id: 7,
        pci_sub_system_id: Some(8),
    };
    let raw = removal_pci_info(Ok(info.clone())).unwrap();
    assert_eq!(raw, info.clone().try_into_c().unwrap());
    assert_eq!(removal_pci_info(Err(NvmlError::GpuLost)), Err(NvmlError::GetPciInfoFailed(Box::new(NvmlError::GpuLost))));
    let too_long = PciInfo { bus_id: "0000:01:00.0.0.0.0.0".to_string(), ..info.clone() };
    assert_eq!(
        removal_pci_info(Ok(too_long)),
        Err(NvmlError::PciInfoToCFailed(Box::new(NvmlError::StringTooLong { max_len: 16, actual_len: 21 })))
    );
    let with_nul = PciInfo { bus_id: "a\0b".to_string(), ..info.clone() };
    assert_eq!(
        removal_pci_info(Ok(with_nul)),
        Err(NvmlError::PciInfoToCFailed(Box::new(NvmlError::NulError(1, b"a\0b".to_vec()))))
    );

    assert_eq!(removal_outcome("dev", Ok(NVML_SUCCESS)), (Ok(()), None));
    assert_eq!(removal_outcome("dev", Ok(NVML_ERROR_NO_PERMISSION)), (Err(NvmlError::NoPermission), Some("dev")));
    assert_eq!(removal_outcome("dev", Err(NvmlError::InUse)), (Err(NvmlError::InUse), Some("dev")));
}

#[test]
fn fetch_after_count() {
    let fetched = RefCell::new(vec![]);
    let fetch = |n: u32| {
        fetched.borrow_mut().push(n);
        Ok(vec![7u32; n as usize])
    };
    assert_eq!(fetch_counted(Ok(0), &fetch), Ok(vec![]));
    assert!(fetched.borrow().is_empty());
    assert_eq!(fetch_counted(Err(NvmlError::NotSupported), &fetch), Err(NvmlError::NotSupported));
    assert!(fetched.borrow().is_empty());
    assert_eq!(fetch_counted(Ok(2), &fetch), Ok(vec![7, 7]));
    assert_eq!(*fetched.borrow(), vec![2]);
    let failing = |_n: u32| -> Result<Vec<u32>, NvmlError> { Err(NvmlError::GpuLost) };
    assert_eq!(fetch_counted(Ok(3), failing), Err(NvmlError::GpuLost));
}

#[test]
fn supported_clocks_two_calls() {
    let sizes = RefCell::new(vec![]);
    let query = |size: usize| {
        sizes.borrow_mut().push(size);
        if size < 200 {
            clocks_result(NVML_ERROR_INSUFFICIENT_SIZE, 200, vec![0; size])
        } else {
            clocks_result(NVML_SUCCESS, 2, vec![1500, 1400, 0])
        }
    };
    assert_eq!(supported_graphics_clocks(&query), Ok(vec![1500, 1400]));
    assert_eq!(*sizes.borrow(), vec![128, 200]);
    sizes.borrow_mut().clear();
    assert_eq!(supported_memory_clocks(&query), Ok(vec![1500, 1400]));
    assert_eq!(*sizes.borrow(), vec![16, 200]);
    sizes.borrow_mut().clear();
    assert_eq!(supported_clocks(300, &query), Ok(vec![1500, 1400]));
    assert_eq!(*sizes.borrow(), vec![300]);
    let unsupported = |_size: usize| clocks_result(NVML_ERROR_NOT_SUPPORTED, 0, vec![]);
    assert_eq!(supported_memory_clocks(unsupported), Err(NvmlError::NotSupported));
}

#[test]
fn samples_timestamp_default() {
    assert_eq!(samples_timestamp(None), 0);
    assert_eq!(samples_timestamp(Some(12345)), 12345);
}

fn raw_pci(bus_id: &[u8]) -> RawPciInfo {
    let mut buf = bus_id.to_vec();
    buf.resize(16, 0);
    RawPciInfo {
        bus_id: buf,
        domain: 1,
        bus: 2,
        device: 3,
        pci_device_id: 4,
        pci_sub_system_id: 5,
        reserved0: 0,
        reserved1: 0,
        reserved2: 0,
        reserved3: 0,
    }
}

#[test]
fn pci_info_queries() {
    let local = pci_info_result(NVML_SUCCESS, raw_pci(b"0000:02:00.0")).unwrap();
    assert_eq!(local.pci_sub_system_id, Some(5));
    assert_eq!(local.bus_id, "0000:02:00.0");
    let remote = remote_pci_info_result(NVML_SUCCESS, raw_pci(b"0000:03:00.0")).unwrap();
    assert_eq!(remote.pci_sub_system_id, None);
    assert_eq!(remote.bus, 2);
    assert_eq!(pci_info_result(NVML_ERROR_NOT_SUPPORTED, raw_pci(b"x")), Err(NvmlError::NotSupported));
    assert_eq!(remote_pci_info_result(NVML_SUCCESS, raw_pci(&[0xff])), Err(NvmlError::Utf8Error { valid_up_to: 0 }));
}

#[test]
fn state_structs_under_their_other_names() {
    let m = DriverModels::from(DriverModelState { current: DriverModel::WDDM, pending: DriverModel::WDM });
    assert_eq!(m, DriverModels { current: DriverModel::WDDM, pending: DriverModel::WDM });
    assert_eq!(DriverModelState::from(m).pending, DriverModel::WDM);
    let e = EccModeInfo::from(EccModeState { currently_enabled: true, pending_enabled: false });
    assert!(e.currently_enabled && !e.pending_enabled);
    assert_eq!(EccModeState::from(e), EccModeState { currently_enabled: true, pending_enabled: false });
    let o = OperationModeInfo::from(OperationModeState { current: OperationMode::AllOn, pending: OperationMode::Compute });
    assert_eq!(OperationModeState::from(o).current, OperationMode::AllOn);
}
