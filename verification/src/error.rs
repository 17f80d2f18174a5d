//! Errors reported by this library and the mapping of NVML return codes onto them.
use vstd::prelude::*;

use crate::bindings::{
    NVML_ERROR_ALREADY_INITIALIZED,
    NVML_ERROR_CORRUPTED_INFOROM,
    NVML_ERROR_DRIVER_NOT_LOADED,
    NVML_ERROR_FUNCTION_NOT_FOUND,
    NVML_ERROR_GPU_IS_LOST,
    NVML_ERROR_INSUFFICIENT_POWER,
    NVML_ERROR_INSUFFICIENT_SIZE,
    NVML_ERROR_INVALID_ARGUMENT,
    NVML_ERROR_IN_USE,
    NVML_ERROR_IRQ_ISSUE,
    NVML_ERROR_LIBRARY_NOT_FOUND,
    NVML_ERROR_LIB_RM_VERSION_MISMATCH,
    NVML_ERROR_MEMORY,
    NVML_ERROR_NOT_FOUND,
    NVML_ERROR_NOT_SUPPORTED,
    NVML_ERROR_NO_DATA,
    NVML_ERROR_NO_PERMISSION,
    NVML_ERROR_OPERATING_SYSTEM,
    NVML_ERROR_RESET_REQUIRED,
    NVML_ERROR_TIMEOUT,
    NVML_ERROR_UNINITIALIZED,
    NVML_ERROR_UNKNOWN,
    NVML_ERROR_VGPU_ECC_NOT_SUPPORTED,
    NVML_SUCCESS,
};

verus! {

/// Raw bits that could not be interpreted as a set of flags.
#[derive(Debug, Clone, Copy, PartialEq, Eq, Hash)]
pub enum Bits {
    U32(u32),
    U64(u64),
}

/// An error returned by NVML or detected by this library.
#[derive(Debug, PartialEq, Eq, Hash)]
pub enum NvmlError {
    /// A string obtained from NVML was not valid UTF-8; `valid_up_to` is the
    /// length of its longest prefix that is.
    Utf8Error { valid_up_to: usize },
    /// A string handed to NVML held a nul byte: the position of the first one,
    /// and the bytes of the string.
    NulError(usize, Vec<u8>),
    /// Converting a `PciInfo` into its C counterpart failed within a call,
    /// with the error that the conversion gave.
    PciInfoToCFailed(Box<NvmlError>),
    /// Obtaining the `PciInfo` of a device failed within a call, with the
    /// error that obtaining it gave.
    GetPciInfoFailed(Box<NvmlError>),
    /// Releasing an event set failed within a call, with the error that
    /// releasing it gave.
    SetReleaseFailed(Box<NvmlError>),
    /// A string was too long to fit into an array.
    StringTooLong { max_len: usize, actual_len: usize },
    /// Bits that did not correspond to a flag were encountered whilst
    /// interpreting them as flags.
    IncorrectBits(Bits),
    /// A value that no variant of the wrapping enum maps to was encountered.
    UnexpectedVariant(u32),
    /// NVML was not first initialized.
    Uninitialized,
    /// A supplied argument is invalid.
    InvalidArg,
    /// The requested operation is not available on the target device.
    NotSupported,
    /// The current user does not have permission for the operation.
    NoPermission,
    /// Deprecated by NVML; multiple initializations are refcounted.
    AlreadyInitialized,
    /// A query to find an object was unsuccessful.
    NotFound,
    /// An input argument is not large enough; holds the required size when known.
    InsufficientSize(Option<usize>),
    /// A device's external power cables are not properly attached.
    InsufficientPower,
    /// The NVIDIA driver is not loaded.
    DriverNotLoaded,
    /// The user provided timeout passed.
    Timeout,
    /// The NVIDIA kernel detected an interrupt issue with a GPU.
    IrqIssue,
    /// The NVML shared library couldn't be found or loaded.
    LibraryNotFound,
    /// The local version of NVML doesn't implement this function.
    FunctionNotFound,
    /// The infoROM is corrupted.
    CorruptedInfoROM,
    /// The GPU has fallen off the bus or has otherwise become inaccessible.
    GpuLost,
    /// The GPU requires a reset before it can be used again.
    ResetRequired,
    /// The GPU control device has been blocked by the operating system/cgroups.
    OperatingSystem,
    /// RM detects a driver/library version mismatch.
    LibRmVersionMismatch,
    /// An operation cannot be performed because the GPU is currently in use.
    InUse,
    /// Insufficient memory.
    InsufficientMemory,
    /// No data.
    NoData,
    /// The requested vGPU operation is not available because ECC is enabled.
    VgpuEccNotSupported,
    /// An internal driver error occurred.
    Unknown,
}

/// The error that a failed NVML return code stands for.
pub open spec fn error_for_code(code: u32) -> NvmlError {
    if code == NVML_ERROR_UNINITIALIZED {
        NvmlError::Uninitialized
    } else if code == NVML_ERROR_INVALID_ARGUMENT {
        NvmlError::InvalidArg
    } else if code == NVML_ERROR_NOT_SUPPORTED {
        NvmlError::NotSupported
    } else if code == NVML_ERROR_NO_PERMISSION {
        NvmlError::NoPermission
    } else if code == NVML_ERROR_ALREADY_INITIALIZED {
        NvmlError::AlreadyInitialized
    } else if code == NVML_ERROR_NOT_FOUND {
        NvmlError::NotFound
    } else if code == NVML_ERROR_INSUFFICIENT_SIZE {
        NvmlError::InsufficientSize(None)
    } else if code == NVML_ERROR_INSUFFICIENT_POWER {
        NvmlError::InsufficientPower
    } else if code == NVML_ERROR_DRIVER_NOT_LOADED {
        NvmlError::DriverNotLoaded
    } else if code == NVML_ERROR_TIMEOUT {
        NvmlError::Timeout
    } else if code == NVML_ERROR_IRQ_ISSUE {
        NvmlError::IrqIssue
    } else if code == NVML_ERROR_LIBRARY_NOT_FOUND {
        NvmlError::LibraryNotFound
    } else if code == NVML_ERROR_FUNCTION_NOT_FOUND {
        NvmlError::FunctionNotFound
    } else if code == NVML_ERROR_CORRUPTED_INFOROM {
        NvmlError::CorruptedInfoROM
    } else if code == NVML_ERROR_GPU_IS_LOST {
        NvmlError::GpuLost
    } else if code == NVML_ERROR_RESET_REQUIRED {
        NvmlError::ResetRequired
    } else if code == NVML_ERROR_OPERATING_SYSTEM {
        NvmlError::OperatingSystem
    } else if code == NVML_ERROR_LIB_RM_VERSION_MISMATCH {
        NvmlError::LibRmVersionMismatch
    } else if code == NVML_ERROR_IN_USE {
        NvmlError::InUse
    } else if code == NVML_ERROR_MEMORY {
        NvmlError::InsufficientMemory
    } else if code == NVML_ERROR_NO_DATA {
        NvmlError::NoData
    } else if code == NVML_ERROR_VGPU_ECC_NOT_SUPPORTED {
        NvmlError::VgpuEccNotSupported
    } else if code == NVML_ERROR_UNKNOWN {
        NvmlError::Unknown
    } else {
        NvmlError::UnexpectedVariant(code)
    }
}

/// What `nvml_try` gives for an NVML return code: `Ok` for success, otherwise
/// the error that the code stands for.
pub open spec fn try_result(code: u32) -> Result<(), NvmlError> {
    if code == NVML_SUCCESS {
        Ok(())
    } else {
        Err(error_for_code(code))
    }
}

/// Turns an NVML return code into a `Result`.
pub fn nvml_try(code: u32) -> (r: Result<(), NvmlError>)
    ensures
        r == try_result(code),
{
    if code == NVML_SUCCESS {
        Ok(())
    } else if code == NVML_ERROR_UNINITIALIZED {
        Err(NvmlError::Uninitialized)
    } else if code == NVML_ERROR_INVALID_ARGUMENT {
        Err(NvmlError::InvalidArg)
    } else if code == NVML_ERROR_NOT_SUPPORTED {
        Err(NvmlError::NotSupported)
    } else if code == NVML_ERROR_NO_PERMISSION {
        Err(NvmlError::NoPermission)
    } else if code == NVML_ERROR_ALREADY_INITIALIZED {
        Err(NvmlError::AlreadyInitialized)
    } else if code == NVML_ERROR_NOT_FOUND {
        Err(NvmlError::NotFound)
    } else if code == NVML_ERROR_INSUFFICIENT_SIZE {
        Err(NvmlError::InsufficientSize(None))
    } else if code == NVML_ERROR_INSUFFICIENT_POWER {
        Err(NvmlError::InsufficientPower)
    } else if code == NVML_ERROR_DRIVER_NOT_LOADED {
        Err(NvmlError::DriverNotLoaded)
    } else if code == NVML_ERROR_TIMEOUT {
        Err(NvmlError::Timeout)
    } else if code == NVML_ERROR_IRQ_ISSUE {
        Err(NvmlError::IrqIssue)
    } else if code == NVML_ERROR_LIBRARY_NOT_FOUND {
        Err(NvmlError::LibraryNotFound)
    } else if code == NVML_ERROR_FUNCTION_NOT_FOUND {
        Err(NvmlError::FunctionNotFound)
    } else if code == NVML_ERROR_CORRUPTED_INFOROM {
        Err(NvmlError::CorruptedInfoROM)
    } else if code == NVML_ERROR_GPU_IS_LOST {
        Err(NvmlError::GpuLost)
    } else if code == NVML_ERROR_RESET_REQUIRED {
        Err(NvmlError::ResetRequired)
    } else if code == NVML_ERROR_OPERATING_SYSTEM {
        Err(NvmlError::OperatingSystem)
    } else if code == NVML_ERROR_LIB_RM_VERSION_MISMATCH {
        Err(NvmlError::LibRmVersionMismatch)
    } else if code == NVML_ERROR_IN_USE {
        Err(NvmlError::InUse)
    } else if code == NVML_ERROR_MEMORY {
        Err(NvmlError::InsufficientMemory)
    } else if code == NVML_ERROR_NO_DATA {
        Err(NvmlError::NoData)
    } else if code == NVML_ERROR_VGPU_ECC_NOT_SUPPORTED {
        Err(NvmlError::VgpuEccNotSupported)
    } else if code == NVML_ERROR_UNKNOWN {
        Err(NvmlError::Unknown)
    } else {
        Err(NvmlError::UnexpectedVariant(code))
    }
}

/// The short description of an error: for the two errors that come from the
/// standard library, the description of the standard library's error.
pub open spec fn description_of(e: NvmlError) -> Seq<char> {
    match e {
        NvmlError::Utf8Error { .. } => "invalid utf-8: corrupt contents"@,
        NvmlError::NulError(..) => "nul byte found in data"@,
        NvmlError::PciInfoToCFailed(_) => "An error used to pinpoint error cause within a function to a call to `PciInfo.try_into_c()`."@,
        NvmlError::GetPciInfoFailed(_) => "An error used to pinpoint error cause within a function to a call to `Device.pci_info()`."@,
        NvmlError::SetReleaseFailed(_) => "An error used to pinpoint error cause within a function to a call to `EventSet.release_events()`."@,
        NvmlError::StringTooLong { .. } => "A String was too long to fit into an array."@,
        NvmlError::IncorrectBits(_) => "Bits that did not correspond to a flag were encountered whilst attempting to interpret them as bitflags."@,
        NvmlError::UnexpectedVariant(_) => "An unexpected enum variant was encountered."@,
        NvmlError::Uninitialized => "NVML was not first initialized with `NVML::init()`."@,
        NvmlError::InvalidArg => "A supplied argument is invalid."@,
        NvmlError::NotSupported => "The requested operation is not available on the target device."@,
        NvmlError::NoPermission => "The current user does not have permission for the operation."@,
        NvmlError::AlreadyInitialized => "This error is deprecated on the part of the NVML lib itself and should not be encountered. Multiple initializations are now allowed through refcounting."@,
        NvmlError::NotFound => "A query to find and object was unsuccessful."@,
        NvmlError::InsufficientSize(_) => "An input argument is not large enough."@,
        NvmlError::InsufficientPower => "A device's external power cables are not properly attached."@,
        NvmlError::DriverNotLoaded => "NVIDIA driver is not loaded."@,
        NvmlError::Timeout => "User provided timeout passed."@,
        NvmlError::IrqIssue => "NVIDIA kernel detected an interrupt issue with a GPU."@,
        NvmlError::LibraryNotFound => "NVML Shared Library couldn't be found or loaded."@,
        NvmlError::FunctionNotFound => "Local version of NVML doesn't implement this function."@,
        NvmlError::CorruptedInfoROM => "infoROM is corrupted."@,
        NvmlError::GpuLost => "The GPU has fallen off the bus or has otherwise become inaccessible."@,
        NvmlError::ResetRequired => "The GPU requires a reset before it can be used again."@,
        NvmlError::OperatingSystem => "The GPU control device has been blocked by the operating system/cgroups."@,
        NvmlError::LibRmVersionMismatch => "RM detects a driver/library version mismatch."@,
        NvmlError::InUse => "An operation cannot be performed because the GPU is currently in use."@,
        NvmlError::InsufficientMemory => "Insufficient memory."@,
        NvmlError::NoData => "No data."@,
        NvmlError::VgpuEccNotSupported => "The requested vgpu operation is not available on the target device because ECC is enabled."@,
        NvmlError::Unknown => "An internal driver error occurred."@,
    }
}

impl NvmlError {
    /// A short description of the error.
    pub fn description(&self) -> (s: &'static str)
        ensures
            s@ == description_of(*self),
    {
        match self {
            NvmlError::Utf8Error { .. } => "invalid utf-8: corrupt contents",
            NvmlError::NulError(..) => "nul byte found in data",
            NvmlError::PciInfoToCFailed(_) => "An error used to pinpoint error cause within a function to a call to `PciInfo.try_into_c()`.",
            NvmlError::GetPciInfoFailed(_) => "An error used to pinpoint error cause within a function to a call to `Device.pci_info()`.",
            NvmlError::SetReleaseFailed(_) => "An error used to pinpoint error cause within a function to a call to `EventSet.release_events()`.",
            NvmlError::StringTooLong { .. } => "A String was too long to fit into an array.",
            NvmlError::IncorrectBits(_) => "Bits that did not correspond to a flag were encountered whilst attempting to interpret them as bitflags.",
            NvmlError::UnexpectedVariant(_) => "An unexpected enum variant was encountered.",
            NvmlError::Uninitialized => "NVML was not first initialized with `NVML::init()`.",
            NvmlError::InvalidArg => "A supplied argument is invalid.",
            NvmlError::NotSupported => "The requested operation is not available on the target device.",
            NvmlError::NoPermission => "The current user does not have permission for the operation.",
            NvmlError::AlreadyInitialized => "This error is deprecated on the part of the NVML lib itself and should not be encountered. Multiple initializations are now allowed through refcounting.",
            NvmlError::NotFound => "A query to find and object was unsuccessful.",
            NvmlError::InsufficientSize(_) => "An input argument is not large enough.",
            NvmlError::InsufficientPower => "A device's external power cables are not properly attached.",
            NvmlError::DriverNotLoaded => "NVIDIA driver is not loaded.",
            NvmlError::Timeout => "User provided timeout passed.",
            NvmlError::IrqIssue => "NVIDIA kernel detected an interrupt issue with a GPU.",
            NvmlError::LibraryNotFound => "NVML Shared Library couldn't be found or loaded.",
            NvmlError::FunctionNotFound => "Local version of NVML doesn't implement this function.",
            NvmlError::CorruptedInfoROM => "infoROM is corrupted.",
            NvmlError::GpuLost => "The GPU has fallen off the bus or has otherwise become inaccessible.",
            NvmlError::ResetRequired => "The GPU requires a reset before it can be used again.",
            NvmlError::OperatingSystem => "The GPU control device has been blocked by the operating system/cgroups.",
            NvmlError::LibRmVersionMismatch => "RM detects a driver/library version mismatch.",
            NvmlError::InUse => "An operation cannot be performed because the GPU is currently in use.",
            NvmlError::InsufficientMemory => "Insufficient memory.",
            NvmlError::NoData => "No data.",
            NvmlError::VgpuEccNotSupported => "The requested vgpu operation is not available on the target device because ECC is enabled.",
            NvmlError::Unknown => "An internal driver error occurred.",
        }
    }
}

/// The NVML return code that an error produced by `nvml_try` came from.
spec fn code_of_error(e: NvmlError) -> u32 {
    match e {
        NvmlError::Uninitialized => NVML_ERROR_UNINITIALIZED,
        NvmlError::InvalidArg => NVML_ERROR_INVALID_ARGUMENT,
        NvmlError::NotSupported => NVML_ERROR_NOT_SUPPORTED,
        NvmlError::NoPermission => NVML_ERROR_NO_PERMISSION,
        NvmlError::AlreadyInitialized => NVML_ERROR_ALREADY_INITIALIZED,
        NvmlError::NotFound => NVML_ERROR_NOT_FOUND,
        NvmlError::InsufficientSize(_) => NVML_ERROR_INSUFFICIENT_SIZE,
        NvmlError::InsufficientPower => NVML_ERROR_INSUFFICIENT_POWER,
        NvmlError::DriverNotLoaded => NVML_ERROR_DRIVER_NOT_LOADED,
        NvmlError::Timeout => NVML_ERROR_TIMEOUT,
        NvmlError::IrqIssue => NVML_ERROR_IRQ_ISSUE,
        NvmlError::LibraryNotFound => NVML_ERROR_LIBRARY_NOT_FOUND,
        NvmlError::FunctionNotFound => NVML_ERROR_FUNCTION_NOT_FOUND,
        NvmlError::CorruptedInfoROM => NVML_ERROR_CORRUPTED_INFOROM,
        NvmlError::GpuLost => NVML_ERROR_GPU_IS_LOST,
        NvmlError::ResetRequired => NVML_ERROR_RESET_REQUIRED,
        NvmlError::OperatingSystem => NVML_ERROR_OPERATING_SYSTEM,
        NvmlError::LibRmVersionMismatch => NVML_ERROR_LIB_RM_VERSION_MISMATCH,
        NvmlError::InUse => NVML_ERROR_IN_USE,
        NvmlError::InsufficientMemory => NVML_ERROR_MEMORY,
        NvmlError::NoData => NVML_ERROR_NO_DATA,
        NvmlError::VgpuEccNotSupported => NVML_ERROR_VGPU_ECC_NOT_SUPPORTED,
        NvmlError::Unknown => NVML_ERROR_UNKNOWN,
        NvmlError::UnexpectedVariant(v) => v,
        _ => NVML_SUCCESS,
    }
}

proof fn lemma_code_of_error_for_code(code: u32)
    requires
        code != NVML_SUCCESS,
    ensures
        code_of_error(error_for_code(code)) == code,
{
}

/// `nvml_try` succeeds on exactly one return code: `NVML_SUCCESS`.
pub proof fn lemma_nvml_try_ok_iff_success(code: u32)
    ensures
        try_result(code) is Ok <==> code == NVML_SUCCESS,
{
}

/// `nvml_try` loses no information: two different return codes never give the
/// same result, so every code, including one that NVML did not document,
/// can be told apart from every other in what `nvml_try` returns.
pub proof fn lemma_nvml_try_injective(code1: u32, code2: u32)
    requires
        code1 != code2,
    ensures
        try_result(code1) != try_result(code2),
{
    if code1 != NVML_SUCCESS && code2 != NVML_SUCCESS {
        lemma_code_of_error_for_code(code1);
        lemma_code_of_error_for_code(code2);
    }
}

/// `nvml_try` follows NVML's `nvmlReturn_t`: 0 is success, each code from 1 to
/// 22 and 999 is the error that `nvml.h` documents for it, and every other
/// code is `UnexpectedVariant` holding that code.
pub proof fn lemma_nvml_return_codes(code: u32)
    ensures
        try_result(0u32) == Ok::<(), NvmlError>(()),
        try_result(1u32) == Err::<(), NvmlError>(NvmlError::Uninitialized),
        try_result(2u32) == Err::<(), NvmlError>(NvmlError::InvalidArg),
        try_result(3u32) == Err::<(), NvmlError>(NvmlError::NotSupported),
        try_result(4u32) == Err::<(), NvmlError>(NvmlError::NoPermission),
        try_result(5u32) == Err::<(), NvmlError>(NvmlError::AlreadyInitialized),
        try_result(6u32) == Err::<(), NvmlError>(NvmlError::NotFound),
        try_result(7u32) == Err::<(), NvmlError>(NvmlError::InsufficientSize(None)),
        try_result(8u32) == Err::<(), NvmlError>(NvmlError::InsufficientPower),
        try_result(9u32) == Err::<(), NvmlError>(NvmlError::DriverNotLoaded),
        try_result(10u32) == Err::<(), NvmlError>(NvmlError::Timeout),
        try_result(11u32) == Err::<(), NvmlError>(NvmlError::IrqIssue),
        try_result(12u32) == Err::<(), NvmlError>(NvmlError::LibraryNotFound),
        try_result(13u32) == Err::<(), NvmlError>(NvmlError::FunctionNotFound),
        try_result(14u32) == Err::<(), NvmlError>(NvmlError::CorruptedInfoROM),
        try_result(15u32) == Err::<(), NvmlError>(NvmlError::GpuLost),
        try_result(16u32) == Err::<(), NvmlError>(NvmlError::ResetRequired),
        try_result(17u32) == Err::<(), NvmlError>(NvmlError::OperatingSystem),
        try_result(18u32) == Err::<(), NvmlError>(NvmlError::LibRmVersionMismatch),
        try_result(19u32) == Err::<(), NvmlError>(NvmlError::InUse),
        try_result(20u32) == Err::<(), NvmlError>(NvmlError::InsufficientMemory),
        try_result(21u32) == Err::<(), NvmlError>(NvmlError::NoData),
        try_result(22u32) == Err::<(), NvmlError>(NvmlError::VgpuEccNotSupported),
        try_result(999u32) == Err::<(), NvmlError>(NvmlError::Unknown),
        (23u32 <= code && code != 999u32) ==> try_result(code) == Err::<(), NvmlError>(
            NvmlError::UnexpectedVariant(code),
        ),
{
}

} // verus!
