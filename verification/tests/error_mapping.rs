use nvml_wrapper::bindings::{
    NVML_ERROR_ALREADY_INITIALIZED, NVML_ERROR_CORRUPTED_INFOROM, NVML_ERROR_DRIVER_NOT_LOADED,
    NVML_ERROR_FUNCTION_NOT_FOUND, NVML_ERROR_GPU_IS_LOST, NVML_ERROR_INSUFFICIENT_POWER,
    NVML_ERROR_INSUFFICIENT_SIZE, NVML_ERROR_INVALID_ARGUMENT, NVML_ERROR_IN_USE,
    NVML_ERROR_IRQ_ISSUE, NVML_ERROR_LIBRARY_NOT_FOUND, NVML_ERROR_LIB_RM_VERSION_MISMATCH,
    NVML_ERROR_MEMORY, NVML_ERROR_NOT_FOUND, NVML_ERROR_NOT_SUPPORTED, NVML_ERROR_NO_DATA,
    NVML_ERROR_NO_PERMISSION, NVML_ERROR_OPERATING_SYSTEM, NVML_ERROR_RESET_REQUIRED,
    NVML_ERROR_TIMEOUT, NVML_ERROR_UNINITIALIZED, NVML_ERROR_UNKNOWN,
    NVML_ERROR_VGPU_ECC_NOT_SUPPORTED, NVML_SUCCESS,
};
use nvml_wrapper::error::{nvml_try, NvmlError};

#[test]
fn nvml_try_success() {
    let res = nvml_try(NVML_SUCCESS);
    assert_eq!(res.unwrap(), ())
}

#[test]
fn nvml_try_maps_every_documented_code() {
    let table = vec![
        (NVML_ERROR_UNINITIALIZED, NvmlError::Uninitialized),
        (NVML_ERROR_INVALID_ARGUMENT, NvmlError::InvalidArg),
        (NVML_ERROR_NOT_SUPPORTED, NvmlError::NotSupported),
        (NVML_ERROR_NO_PERMISSION, NvmlError::NoPermission),
        (NVML_ERROR_ALREADY_INITIALIZED, NvmlError::AlreadyInitialized),
        (NVML_ERROR_NOT_FOUND, NvmlError::NotFound),
        (NVML_ERROR_INSUFFICIENT_SIZE, NvmlError::InsufficientSize(None)),
        (NVML_ERROR_INSUFFICIENT_POWER, NvmlError::InsufficientPower),
        (NVML_ERROR_DRIVER_NOT_LOADED, NvmlError::DriverNotLoaded),
        (NVML_ERROR_TIMEOUT, NvmlError::Timeout),
        (NVML_ERROR_IRQ_ISSUE, NvmlError::IrqIssue),
        (NVML_ERROR_LIBRARY_NOT_FOUND, NvmlError::LibraryNotFound),
        (NVML_ERROR_FUNCTION_NOT_FOUND, NvmlError::FunctionNotFound),
        (NVML_ERROR_CORRUPTED_INFOROM, NvmlError::CorruptedInfoROM),
        (NVML_ERROR_GPU_IS_LOST, NvmlError::GpuLost),
        (NVML_ERROR_RESET_REQUIRED, NvmlError::ResetRequired),
        (NVML_ERROR_OPERATING_SYSTEM, NvmlError::OperatingSystem),
        (NVML_ERROR_LIB_RM_VERSION_MISMATCH, NvmlError::LibRmVersionMismatch),
        (NVML_ERROR_IN_USE, NvmlError::InUse),
        (NVML_ERROR_MEMORY, NvmlError::InsufficientMemory),
        (NVML_ERROR_NO_DATA, NvmlError::NoData),
        (NVML_ERROR_VGPU_ECC_NOT_SUPPORTED, NvmlError::VgpuEccNotSupported),
        (NVML_ERROR_UNKNOWN, NvmlError::Unknown),
    ];
    for (code, err) in table {
        assert_eq!(nvml_try(code), Err(err));
    }
}

#[test]
fn nvml_try_literal_codes() {
    assert_eq!(nvml_try(0), Ok(()));
    assert_eq!(nvml_try(3), Err(NvmlError::NotSupported));
    assert_eq!(nvml_try(7), Err(NvmlError::InsufficientSize(None)));
    assert_eq!(nvml_try(999), Err(NvmlError::Unknown));
}

#[test]
fn nvml_try_undocumented_code_is_unexpected_variant() {
    assert_eq!(nvml_try(23), Err(NvmlError::UnexpectedVariant(23)));
    assert_eq!(nvml_try(12345), Err(NvmlError::UnexpectedVariant(12345)));
    assert_eq!(nvml_try(u32::MAX), Err(NvmlError::UnexpectedVariant(u32::MAX)));
}

#[test]
fn nvml_try_ok_only_for_success() {
    for code in 1u32..1100 {
        assert!(nvml_try(code).is_err());
    }
}

#[test]
fn nvml_try_distinct_codes_give_distinct_results() {
    let codes: Vec<u32> = (0u32..30).chain(vec![998u32, 999, 1000].into_iter()).collect();
    for a in codes.iter() {
        for b in codes.iter() {
            if a != b {
                assert_ne!(nvml_try(*a), nvml_try(*b));
            }
        }
    }
}

#[test]
fn error_descriptions() {
    assert_eq!(NvmlError::NotSupported.description(), "The requested operation is not available on the target device.");
    assert_eq!(NvmlError::InsufficientSize(Some(3)).description(), "An input argument is not large enough.");
    assert_eq!(NvmlError::UnexpectedVariant(9).description(), "An unexpected enum variant was encountered.");
    assert_eq!(
        NvmlError::StringTooLong { max_len: 16, actual_len: 17 }.description(),
        "A String was too long to fit into an array."
    );
    assert_eq!(NvmlError::Utf8Error { valid_up_to: 0 }.description(), "invalid utf-8: corrupt contents");
    assert_eq!(NvmlError::Unknown.description(), "An internal driver error occurred.");
}

#[test]
fn error_causes_are_kept() {
    let e = NvmlError::GetPciInfoFailed(Box::new(NvmlError::GpuLost));
    assert_eq!(e, NvmlError::GetPciInfoFailed(Box::new(NvmlError::GpuLost)));
    assert_ne!(e, NvmlError::GetPciInfoFailed(Box::new(NvmlError::Unknown)));
}
