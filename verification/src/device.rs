//! What device, unit, NvLink and system calls decide on the values that NVML
//! reports: each function here takes the return code and the values that the
//! NVML call filled in, and gives what the wrapper returns for them.
use vstd::prelude::*;

use crate::bindings::{NVML_ERROR_INSUFFICIENT_SIZE, NVML_SUCCESS};
use crate::bitmasks::device::ThrottleReasons;
use crate::bitmasks::event::EventTypes;
use crate::enum_wrappers::device::{DriverModel, OperationMode, SampleValueType};
use crate::enum_wrappers::{bool_from_state, bool_of_state, from_c_result, CEnumMapping};
use crate::error::{error_for_code, nvml_try, try_result, Bits, NvmlError};
use crate::struct_wrappers::device::{
    fits_c_form,
    is_c_form_error,
    is_c_form_of,
    is_read_from,
    PciInfo, ProcessInfo, RawPciInfo, RawProcessInfo, RawSample, Sample};
use crate::struct_wrappers::{c_string_result, is_nul_terminated, string_from_c_buffer};
use crate::structs::device::{AutoBoostClocksEnabledInfo, DriverModelState, EccModeState, OperationModeState};
use vstd::std_specs::convert::FromSpec;
use vstd::utf8::encode_utf8;

verus! {

/// The size of the first buffer that `Device.supported_graphics_clocks()` offers NVML.
pub const SUPPORTED_GRAPHICS_CLOCKS_FIRST_SIZE: usize = 128;

/// The size of the first buffer that `Device.supported_memory_clocks()` offers NVML.
pub const SUPPORTED_MEMORY_CLOCKS_FIRST_SIZE: usize = 16;

/// What a query gives: the value that the call filled in when it succeeded,
/// otherwise the error for its return code.
pub open spec fn query_spec<T>(code: u32, value: T) -> Result<T, NvmlError> {
    match try_result(code) {
        Ok(_) => Ok(value),
        Err(e) => Err(e),
    }
}

/// The result of a query that fills in one value.
pub fn query_result<T>(code: u32, value: T) -> (r: Result<T, NvmlError>)
    ensures
        r == query_spec(code, value),
{
    nvml_try(code)?;
    Ok(value)
}

/// The result of a query that fills in an `nvmlEnableState_t`.
pub fn enable_state_result(code: u32, state: u32) -> (r: Result<bool, NvmlError>)
    ensures
        r == (match try_result(code) {
            Ok(_) => bool_of_state(state),
            Err(e) => Err(e),
        }),
{
    nvml_try(code)?;
    bool_from_state(state)
}

/// The result of a query that fills in a C `int`/`unsigned int` meant as a
/// boolean: any value other than 0 reads as `true`.
pub fn flag_result(code: u32, value: u32) -> (r: Result<bool, NvmlError>)
    ensures
        r == query_spec(code, value != 0),
{
    nvml_try(code)?;
    Ok(value != 0)
}

/// The result of querying whether auto boosted clocks are enabled.
pub fn auto_boosted_clocks_result(code: u32, is_enabled: u32, is_enabled_default: u32) -> (r: Result<
    AutoBoostClocksEnabledInfo,
    NvmlError,
>)
    ensures
        r == (match try_result(code) {
            Err(e) => Err(e),
            Ok(_) => match bool_of_state(is_enabled) {
                Err(e) => Err(e),
                Ok(a) => match bool_of_state(is_enabled_default) {
                    Err(e) => Err(e),
                    Ok(b) => Ok(AutoBoostClocksEnabledInfo { is_enabled: a, is_enabled_default: b }),
                },
            },
        }),
{
    nvml_try(code)?;
    Ok(
        AutoBoostClocksEnabledInfo {
            is_enabled: bool_from_state(is_enabled)?,
            is_enabled_default: bool_from_state(is_enabled_default)?,
        },
    )
}

/// The result of querying the current and pending ECC modes.
pub fn ecc_mode_result(code: u32, current: u32, pending: u32) -> (r: Result<EccModeState, NvmlError>)
    ensures
        r == (match try_result(code) {
            Err(e) => Err(e),
            Ok(_) => match bool_of_state(current) {
                Err(e) => Err(e),
                Ok(a) => match bool_of_state(pending) {
                    Err(e) => Err(e),
                    Ok(b) => Ok(EccModeState { currently_enabled: a, pending_enabled: b }),
                },
            },
        }),
{
    nvml_try(code)?;
    Ok(
        EccModeState {
            currently_enabled: bool_from_state(current)?,
            pending_enabled: bool_from_state(pending)?,
        },
    )
}

/// The result of querying the current and pending driver models.
pub fn driver_model_result(code: u32, current: u32, pending: u32) -> (r: Result<DriverModelState, NvmlError>)
    ensures
        r == (match try_result(code) {
            Err(e) => Err(e),
            Ok(_) => match from_c_result(DriverModel::from_c(current), current) {
                Err(e) => Err(e),
                Ok(a) => match from_c_result(DriverModel::from_c(pending), pending) {
                    Err(e) => Err(e),
                    Ok(b) => Ok(DriverModelState { current: a, pending: b }),
                },
            },
        }),
{
    nvml_try(code)?;
    Ok(
        DriverModelState {
            current: DriverModel::try_from(current)?,
            pending: DriverModel::try_from(pending)?,
        },
    )
}

/// The result of querying the current and pending GPU operation modes.
pub fn operation_mode_result(code: u32, current: u32, pending: u32) -> (r: Result<
    OperationModeState,
    NvmlError,
>)
    ensures
        r == (match try_result(code) {
            Err(e) => Err(e),
            Ok(_) => match from_c_result(OperationMode::from_c(current), current) {
                Err(e) => Err(e),
                Ok(a) => match from_c_result(OperationMode::from_c(pending), pending) {
                    Err(e) => Err(e),
                    Ok(b) => Ok(OperationModeState { current: a, pending: b }),
                },
            },
        }),
{
    nvml_try(code)?;
    Ok(
        OperationModeState {
            current: OperationMode::try_from(current)?,
            pending: OperationMode::try_from(pending)?,
        },
    )
}

/// The number of items that a call reports when it is asked for them with no
/// room to write them: NVML answers `INSUFFICIENT_SIZE` and sets `count` when
/// there are items, and succeeds when there are none.
pub fn count_from_size_query(code: u32, count: u32) -> (r: Result<u32, NvmlError>)
    ensures
        r == (if code == NVML_ERROR_INSUFFICIENT_SIZE {
            Ok(count)
        } else {
            query_spec(code, 0u32)
        }),
{
    if code == NVML_ERROR_INSUFFICIENT_SIZE {
        Ok(count)
    } else {
        nvml_try(code)?;
        Ok(0)
    }
}

/// The number of items that a call reports when it is asked for them with room
/// for one: success (0 or 1 items) and `INSUFFICIENT_SIZE` (more items) both
/// leave the number of items in `count`.
pub fn count_from_single_slot_query(code: u32, count: u32) -> (r: Result<u32, NvmlError>)
    ensures
        r == (if code == NVML_SUCCESS || code == NVML_ERROR_INSUFFICIENT_SIZE {
            Ok(count)
        } else {
            Err(error_for_code(code))
        }),
{
    if code == NVML_SUCCESS || code == NVML_ERROR_INSUFFICIENT_SIZE {
        Ok(count)
    } else {
        match nvml_try(code) {
            Ok(()) => Ok(0),
            Err(e) => Err(e),
        }
    }
}

/// The items of a list query: after a successful call, the first `count` items
/// of the buffer (all of them if it holds fewer).
pub fn list_result<T>(code: u32, count: u32, items: Vec<T>) -> (r: Result<Vec<T>, NvmlError>)
    ensures
        match r {
            Ok(v) => try_result(code) is Ok && v@ == items@.take(
                if count <= items@.len() { count as int } else { items@.len() as int },
            ),
            Err(e) => try_result(code) == Err::<(), NvmlError>(e),
        },
{
    nvml_try(code)?;
    let mut items = items;
    items.truncate(count as usize);
    Ok(items)
}

/// The processes of a running process query: the first `count` entries of the
/// buffer (all of them if it holds fewer), each converted.
pub fn process_infos_result(code: u32, count: u32, processes: Vec<RawProcessInfo>) -> (r: Result<
    Vec<ProcessInfo>,
    NvmlError,
>)
    ensures
        match r {
            Ok(v) => {
                let n = if count <= processes@.len() {
                    count as int
                } else {
                    processes@.len() as int
                };
                &&& try_result(code) is Ok
                &&& v@.len() == n
                &&& forall|i: int|
                    0 <= i < n ==> v@[i] == <ProcessInfo as FromSpec<RawProcessInfo>>::from_spec(
                        #[trigger] processes@[i],
                    )
            },
            Err(e) => try_result(code) == Err::<(), NvmlError>(e),
        },
{
    let kept = list_result(code, count, processes)?;
    let ghost n = if count <= processes@.len() {
        count as int
    } else {
        processes@.len() as int
    };
    let mut out: Vec<ProcessInfo> = Vec::new();
    let mut i: usize = 0;
    while i < kept.len()
        invariant
            kept@ == processes@.take(n),
            0 <= n <= processes@.len(),
            0 <= i <= kept@.len(),
            out@.len() == i,
            forall|j: int|
                0 <= j < i ==> out@[j] == <ProcessInfo as FromSpec<RawProcessInfo>>::from_spec(
                    #[trigger] kept@[j],
                ),
        decreases kept@.len() - i,
    {
        out.push(ProcessInfo::from(kept[i]));
        i = i + 1;
    }
    assert forall|j: int| 0 <= j < n implies out@[j] == <ProcessInfo as FromSpec<
        RawProcessInfo,
    >>::from_spec(#[trigger] processes@[j]) by {
        assert(kept@[j] == processes@[j]);
    }
    Ok(out)
}

/// The result of a query for supported clocks, asked with a buffer of
/// `items.len()` entries: when the buffer is too small, NVML sets `count` to
/// the size that is required and the result is `InsufficientSize` holding it;
/// otherwise the first `count` entries (all of them if it holds fewer).
pub fn clocks_result(code: u32, count: u32, items: Vec<u32>) -> (r: Result<Vec<u32>, NvmlError>)
    ensures
        code == NVML_ERROR_INSUFFICIENT_SIZE ==> r == Err::<Vec<u32>, NvmlError>(
            NvmlError::InsufficientSize(Some(count as usize)),
        ),
        code != NVML_ERROR_INSUFFICIENT_SIZE ==> match r {
            Ok(v) => try_result(code) is Ok && v@ == items@.take(
                if count <= items@.len() { count as int } else { items@.len() as int },
            ),
            Err(e) => try_result(code) == Err::<(), NvmlError>(e),
        },
{
    if code == NVML_ERROR_INSUFFICIENT_SIZE {
        return Err(NvmlError::InsufficientSize(Some(count as usize)));
    }
    list_result(code, count, items)
}

/// Whether a query for supported clocks is made a second time, and with how
/// large a buffer: only when the first answer said how large it must be.
pub fn clocks_retry_size(first: &Result<Vec<u32>, NvmlError>) -> (r: Option<usize>)
    ensures
        r == (match first {
            Err(NvmlError::InsufficientSize(Some(s))) => Some(*s),
            _ => None,
        }),
{
    match first {
        Err(NvmlError::InsufficientSize(Some(s))) => Some(*s),
        _ => None,
    }
}

/// The minimum CPU affinity buffer check: a size of 0 is refused before any
/// call, with the smallest size that can be passed.
pub fn check_cpu_affinity_size(size: usize) -> (r: Result<(), NvmlError>)
    ensures
        r == (if size == 0 {
            Err(NvmlError::InsufficientSize(Some(1)))
        } else {
            Ok(())
        }),
{
    if size == 0 {
        Err(NvmlError::InsufficientSize(Some(1)))
    } else {
        Ok(())
    }
}

/// The result of a query that fills in a character buffer: the string at its start.
pub fn string_result(code: u32, buf: &[u8]) -> (r: Result<String, NvmlError>)
    requires
        code == NVML_SUCCESS ==> is_nul_terminated(buf@),
    ensures
        match r {
            Ok(s) => try_result(code) is Ok && c_string_result(buf@) == Ok::<Seq<char>, NvmlError>(s@),
            Err(e) => try_result(code) == Err::<(), NvmlError>(e) || (try_result(code) is Ok
                && c_string_result(buf@) == Err::<Seq<char>, NvmlError>(e)),
        },
{
    nvml_try(code)?;
    string_from_c_buffer(buf)
}

/// The result of querying throttle reasons: bits that do not correspond to a
/// defined flag are dropped.
pub fn throttle_reasons_result(code: u32, reasons: u64) -> (r: Result<ThrottleReasons, NvmlError>)
    ensures
        match r {
            Ok(f) => try_result(code) is Ok && f@ == reasons & ThrottleReasons::all_bits(),
            Err(e) => try_result(code) == Err::<(), NvmlError>(e),
        },
{
    nvml_try(code)?;
    Ok(ThrottleReasons::from_bits_truncate(reasons))
}

/// The result of querying throttle reasons strictly: bits that do not
/// correspond to a defined flag are an `IncorrectBits` error.
pub fn throttle_reasons_strict_result(code: u32, reasons: u64) -> (r: Result<ThrottleReasons, NvmlError>)
    ensures
        match r {
            Ok(f) => try_result(code) is Ok && reasons & !ThrottleReasons::all_bits() == 0 && f@
                == reasons,
            Err(e) => try_result(code) == Err::<(), NvmlError>(e) || (try_result(code) is Ok
                && reasons & !ThrottleReasons::all_bits() != 0 && e == NvmlError::IncorrectBits(
                Bits::U64(reasons),
            )),
        },
{
    nvml_try(code)?;
    match ThrottleReasons::from_bits(reasons) {
        Some(f) => Ok(f),
        None => Err(NvmlError::IncorrectBits(Bits::U64(reasons))),
    }
}

/// The result of querying supported event types: bits that do not correspond
/// to a defined flag are dropped.
pub fn event_types_result(code: u32, types: u64) -> (r: Result<EventTypes, NvmlError>)
    ensures
        match r {
            Ok(f) => try_result(code) is Ok && f@ == types & EventTypes::all_bits(),
            Err(e) => try_result(code) == Err::<(), NvmlError>(e),
        },
{
    nvml_try(code)?;
    Ok(EventTypes::from_bits_truncate(types))
}

/// The result of querying supported event types strictly: bits that do not
/// correspond to a defined flag are an `IncorrectBits` error.
pub fn event_types_strict_result(code: u32, types: u64) -> (r: Result<EventTypes, NvmlError>)
    ensures
        match r {
            Ok(f) => try_result(code) is Ok && types & !EventTypes::all_bits() == 0 && f@ == types,
            Err(e) => try_result(code) == Err::<(), NvmlError>(e) || (try_result(code) is Ok
                && types & !EventTypes::all_bits() != 0 && e == NvmlError::IncorrectBits(
                Bits::U64(types),
            )),
        },
{
    nvml_try(code)?;
    match EventTypes::from_bits(types) {
        Some(f) => Ok(f),
        None => Err(NvmlError::IncorrectBits(Bits::U64(types))),
    }
}

/// The result of querying samples: after a successful call, every sample of
/// the buffer read with the value type that NVML reported.
pub fn samples_result(code: u32, value_type: u32, samples: Vec<RawSample>) -> (r: Result<
    Vec<Sample>,
    NvmlError,
>)
    ensures
        match r {
            Ok(v) => {
                &&& try_result(code) is Ok
                &&& SampleValueType::from_c(value_type) is Some
                &&& v@.len() == samples@.len()
                &&& forall|i: int|
                    0 <= i < samples@.len() ==> v@[i] == Sample::of_tag_and_struct(
                        SampleValueType::from_c(value_type).unwrap(),
                        #[trigger] samples@[i],
                    )
            },
            Err(e) => try_result(code) == Err::<(), NvmlError>(e) || (try_result(code) is Ok
                && SampleValueType::from_c(value_type) is None && e == NvmlError::UnexpectedVariant(
                value_type,
            )),
        },
{
    nvml_try(code)?;
    let tag = SampleValueType::try_from(value_type)?;
    let mut out: Vec<Sample> = Vec::new();
    let mut i: usize = 0;
    while i < samples.len()
        invariant
            SampleValueType::from_c(value_type) == Some(tag),
            0 <= i <= samples@.len(),
            out@.len() == i,
            forall|j: int|
                0 <= j < i ==> out@[j] == Sample::of_tag_and_struct(tag, #[trigger] samples@[j]),
        decreases samples@.len() - i,
    {
        out.push(Sample::from_tag_and_struct(&tag, samples[i]));
        i = i + 1;
    }
    Ok(out)
}

/// The error that registering events ends with when NVML refused the
/// registration with `refused`: the event set is then released, and when
/// releasing it fails too, the error is `SetReleaseFailed`.
pub fn failed_registration_error(refused: NvmlError, release: Result<(), NvmlError>) -> (r: NvmlError)
    ensures
        r == (match release {
            Ok(_) => refused,
            Err(cause) => NvmlError::SetReleaseFailed(Box::new(cause)),
        }),
{
    match release {
        Ok(()) => refused,
        Err(cause) => NvmlError::SetReleaseFailed(Box::new(cause)),
    }
}

/// The C PCI information that removing a device hands to NVML: built from the
/// given or fetched `PciInfo`. A failure to fetch it is `GetPciInfoFailed`, a
/// failure to build the C structure `PciInfoToCFailed`, each holding the error
/// that caused it.
pub fn removal_pci_info(pci_info: Result<PciInfo, NvmlError>) -> (r: Result<RawPciInfo, NvmlError>)
    requires
        pci_info matches Ok(info) ==> encode_utf8(info.bus_id@).len() < usize::MAX,
    ensures
        match pci_info {
            Err(cause) => r == Err::<RawPciInfo, NvmlError>(NvmlError::GetPciInfoFailed(Box::new(cause))),
            Ok(info) => if fits_c_form(info) {
                r matches Ok(raw) && is_c_form_of(raw, info)
            } else {
                r matches Err(NvmlError::PciInfoToCFailed(cause)) && is_c_form_error(*cause, info)
            },
        },
{
    match pci_info {
        Err(cause) => Err(NvmlError::GetPciInfoFailed(Box::new(cause))),
        Ok(info) => match info.try_into_c() {
            Ok(raw) => Ok(raw),
            Err(cause) => Err(NvmlError::PciInfoToCFailed(Box::new(cause))),
        },
    }
}

/// What removing a device gives: when the removal call was made and
/// succeeded, nothing is handed back; otherwise the error, and the device back.
///
/// `attempt` is the return code of the removal call, or the error that kept it
/// from being made.
pub fn removal_outcome<D>(device: D, attempt: Result<u32, NvmlError>) -> (r: (
    Result<(), NvmlError>,
    Option<D>,
))
    ensures
        r == (match attempt {
            Err(e) => (Err(e), Some(device)),
            Ok(code) => if code == NVML_SUCCESS {
                (Ok(()), None)
            } else {
                (Err(error_for_code(code)), Some(device))
            },
        }),
{
    match attempt {
        Err(e) => (Err(e), Some(device)),
        Ok(code) => match nvml_try(code) {
            Ok(()) => (Ok(()), None),
            Err(e) => (Err(e), Some(device)),
        },
    }
}

/// The items of a list query that is made after counting them: a failed
/// count is passed on, a count of 0 answers with an empty list without
/// fetching, and any other count fetches with a buffer of that many entries.
pub fn fetch_counted<T, F: FnOnce(u32) -> Result<Vec<T>, NvmlError>>(
    count: Result<u32, NvmlError>,
    fetch: F,
) -> (r: Result<Vec<T>, NvmlError>)
    requires
        count matches Ok(n) ==> (n != 0 ==> fetch.requires((n,))),
    ensures
        match count {
            Err(e) => r == Err::<Vec<T>, NvmlError>(e),
            Ok(n) => if n == 0 {
                r matches Ok(v) && v@.len() == 0
            } else {
                fetch.ensures((n,), r)
            },
        },
{
    match count {
        Err(e) => Err(e),
        Ok(n) => if n == 0 {
            Ok(Vec::new())
        } else {
            fetch(n)
        },
    }
}

/// The supported clocks, asked for first with a buffer of `first_size`
/// entries: when that answer says how large the buffer must be, the answer of
/// asking again with that size; otherwise the first answer.
pub fn supported_clocks<F: Fn(usize) -> Result<Vec<u32>, NvmlError>>(first_size: usize, query: F) -> (r:
    Result<Vec<u32>, NvmlError>)
    requires
        forall|size: usize| query.requires((size,)),
    ensures
        exists|first: Result<Vec<u32>, NvmlError>|
            #[trigger] query.ensures((first_size,), first) && match first {
                Err(NvmlError::InsufficientSize(Some(size))) => query.ensures((size,), r),
                _ => r == first,
            },
{
    let first = query(first_size);
    match clocks_retry_size(&first) {
        Some(size) => query(size),
        None => first,
    }
}

/// The supported graphics clocks for a memory clock, asked for first with a
/// buffer of `SUPPORTED_GRAPHICS_CLOCKS_FIRST_SIZE` entries.
pub fn supported_graphics_clocks<F: Fn(usize) -> Result<Vec<u32>, NvmlError>>(query: F) -> (r: Result<
    Vec<u32>,
    NvmlError,
>)
    requires
        forall|size: usize| query.requires((size,)),
    ensures
        exists|first: Result<Vec<u32>, NvmlError>|
            #[trigger] query.ensures((SUPPORTED_GRAPHICS_CLOCKS_FIRST_SIZE,), first) && match first {
                Err(NvmlError::InsufficientSize(Some(size))) => query.ensures((size,), r),
                _ => r == first,
            },
{
    supported_clocks(SUPPORTED_GRAPHICS_CLOCKS_FIRST_SIZE, query)
}

/// The supported memory clocks, asked for first with a buffer of
/// `SUPPORTED_MEMORY_CLOCKS_FIRST_SIZE` entries.
pub fn supported_memory_clocks<F: Fn(usize) -> Result<Vec<u32>, NvmlError>>(query: F) -> (r: Result<
    Vec<u32>,
    NvmlError,
>)
    requires
        forall|size: usize| query.requires((size,)),
    ensures
        exists|first: Result<Vec<u32>, NvmlError>|
            #[trigger] query.ensures((SUPPORTED_MEMORY_CLOCKS_FIRST_SIZE,), first) && match first {
                Err(NvmlError::InsufficientSize(Some(size))) => query.ensures((size,), r),
                _ => r == first,
            },
{
    supported_clocks(SUPPORTED_MEMORY_CLOCKS_FIRST_SIZE, query)
}

/// The timestamp from which samples are asked for: the last one seen, or 0
/// (all samples in the buffer) when none was given.
pub fn samples_timestamp(last_seen_timestamp: Option<u64>) -> (r: u64)
    ensures
        r == (match last_seen_timestamp {
            Some(t) => t,
            None => 0,
        }),
{
    match last_seen_timestamp {
        Some(t) => t,
        None => 0,
    }
}

/// The result of querying a device's PCI information: read with its sub
/// system id present.
pub fn pci_info_result(code: u32, raw: RawPciInfo) -> (r: Result<PciInfo, NvmlError>)
    requires
        code == NVML_SUCCESS ==> is_nul_terminated(raw.bus_id@),
    ensures
        match r {
            Ok(info) => try_result(code) is Ok && is_read_from(info, raw, true),
            Err(e) => try_result(code) == Err::<(), NvmlError>(e) || (try_result(code) is Ok
                && c_string_result(raw.bus_id@) == Err::<Seq<char>, NvmlError>(e)),
        },
{
    nvml_try(code)?;
    PciInfo::try_from(raw, true)
}

/// The result of querying the PCI information of the remote node of an NvLink:
/// read without a sub system id, which NVIDIA says is not filled in there.
pub fn remote_pci_info_result(code: u32, raw: RawPciInfo) -> (r: Result<PciInfo, NvmlError>)
    requires
        code == NVML_SUCCESS ==> is_nul_terminated(raw.bus_id@),
    ensures
        match r {
            Ok(info) => try_result(code) is Ok && is_read_from(info, raw, false),
            Err(e) => try_result(code) == Err::<(), NvmlError>(e) || (try_result(code) is Ok
                && c_string_result(raw.bus_id@) == Err::<Seq<char>, NvmlError>(e)),
        },
{
    nvml_try(code)?;
    PciInfo::try_from(raw, false)
}

} // verus!
