//! Structures that device calls return, built from their C counterparts.
use vstd::prelude::*;
use vstd::std_specs::convert::{FromSpec, FromSpecImpl};
use vstd::utf8::encode_utf8;

use crate::bindings::{
    NVML_DEVICE_PCI_BUS_ID_BUFFER_SIZE,
    NVML_VALUE_NOT_AVAILABLE_U32,
    NVML_VALUE_NOT_AVAILABLE_U64,
};
use crate::enum_wrappers::device::{BridgeChip, SampleValueType};
use crate::enum_wrappers::{from_c_result, CEnumMapping};
use crate::enums::device::{FirmwareVersion, NvmlValue, SampleValue, UsedGpuMemory};
use crate::error::NvmlError;
use crate::struct_wrappers::{
    c_string_bytes,
    c_string_len,
    c_string_result,
    is_nul_terminated,
    lemma_c_string_len,
    lemma_c_string_len_bound,
    string_from_c_buffer,
};

verus! {

broadcast use vstd::utf8::encode_utf8_valid_utf8, vstd::utf8::encode_utf8_decode_utf8;

/// The contents of an `nvmlPciInfo_t`.
#[derive(Debug, Clone, PartialEq, Eq, Hash)]
pub struct RawPciInfo {
    /// The `busId` character buffer, a nul-terminated string.
    pub bus_id: Vec<u8>,
    pub domain: u32,
    pub bus: u32,
    pub device: u32,
    pub pci_device_id: u32,
    pub pci_sub_system_id: u32,
    pub reserved0: u32,
    pub reserved1: u32,
    pub reserved2: u32,
    pub reserved3: u32,
}

/// PCI information about a GPU device.
#[derive(Debug, Clone, PartialEq, Eq, Hash)]
pub struct PciInfo {
    /// The bus on which the device resides, 0 to 0xff.
    pub bus: u32,
    /// The PCI identifier.
    pub bus_id: String,
    /// The device's ID on the bus, 0 to 31.
    pub device: u32,
    /// The PCI domain on which the device's bus resides, 0 to 0xffff.
    pub domain: u32,
    /// The combined 16-bit device ID and 16-bit vendor ID.
    pub pci_device_id: u32,
    /// The 32-bit Sub System Device ID.
    ///
    /// Always `None` when this `PciInfo` describes the remote node of an
    /// NvLink: NVIDIA says that the C field is not filled in that case.
    pub pci_sub_system_id: Option<u32>,
}

/// The bus id of a `PciInfo` laid out in the C character buffer: its UTF-8
/// bytes followed by nul bytes up to the buffer's size.
pub open spec fn bus_id_buffer(bus_id: Seq<char>) -> Seq<u8> {
    encode_utf8(bus_id) + Seq::new(
        (NVML_DEVICE_PCI_BUS_ID_BUFFER_SIZE - encode_utf8(bus_id).len()) as nat,
        |i: int| 0u8,
    )
}

/// Whether the bus id of `info` can be laid out in the C character buffer: it
/// holds no nul byte, and its bytes and a terminating nul fit in the buffer.
pub open spec fn fits_c_form(info: PciInfo) -> bool {
    let bytes = encode_utf8(info.bus_id@);
    &&& c_string_len(bytes) == bytes.len()
    &&& bytes.len() + 1 <= NVML_DEVICE_PCI_BUS_ID_BUFFER_SIZE
}

/// Whether `raw` is what `PciInfo::try_into_c` gives for `info` when it succeeds.
pub open spec fn is_c_form_of(raw: RawPciInfo, info: PciInfo) -> bool {
    &&& raw.bus_id@ == bus_id_buffer(info.bus_id@)
    &&& raw.domain == info.domain
    &&& raw.bus == info.bus
    &&& raw.device == info.device
    &&& raw.pci_device_id == info.pci_device_id
    &&& raw.pci_sub_system_id == (match info.pci_sub_system_id {
        Some(id) => id,
        None => 0,
    })
    &&& raw.reserved0 == u32::MAX
    &&& raw.reserved1 == u32::MAX
    &&& raw.reserved2 == u32::MAX
    &&& raw.reserved3 == u32::MAX
}

/// Whether `e` is the error that `PciInfo::try_into_c` gives for `info` when
/// it fails: `NulError` with the position of the first nul byte of the bus id
/// and its bytes, or else `StringTooLong` with the buffer's size and the size
/// that the bus id and its terminating nul need.
pub open spec fn is_c_form_error(e: NvmlError, info: PciInfo) -> bool {
    let bytes = encode_utf8(info.bus_id@);
    if c_string_len(bytes) < bytes.len() {
        e matches NvmlError::NulError(pos, v) && pos == c_string_len(bytes) && v@ == bytes
    } else {
        e == NvmlError::StringTooLong {
            max_len: NVML_DEVICE_PCI_BUS_ID_BUFFER_SIZE,
            actual_len: (bytes.len() + 1) as usize,
        }
    }
}

/// Whether `info` holds the fields of `raw`, the bus id read from its buffer.
pub open spec fn is_read_from(info: PciInfo, raw: RawPciInfo, sub_sys_id_present: bool) -> bool {
    &&& c_string_result(raw.bus_id@) == Ok::<Seq<char>, NvmlError>(info.bus_id@)
    &&& info.bus == raw.bus
    &&& info.device == raw.device
    &&& info.domain == raw.domain
    &&& info.pci_device_id == raw.pci_device_id
    &&& info.pci_sub_system_id == (if sub_sys_id_present {
        Some(raw.pci_sub_system_id)
    } else {
        None
    })
}

impl PciInfo {
    /// Builds a `PciInfo` from the corresponding C structure.
    ///
    /// Passing `false` for `sub_sys_id_present` sets the `pci_sub_system_id`
    /// field to `None`.
    ///
    /// # Errors
    ///
    /// * `Utf8Error`, if the bus id is not valid UTF-8
    pub fn try_from(struct_: RawPciInfo, sub_sys_id_present: bool) -> (r: Result<PciInfo, NvmlError>)
        requires
            is_nul_terminated(struct_.bus_id@),
        ensures
            match r {
                Ok(info) => is_read_from(info, struct_, sub_sys_id_present),
                Err(e) => c_string_result(struct_.bus_id@) == Err::<Seq<char>, NvmlError>(e),
            },
    {
        let bus_id = string_from_c_buffer(struct_.bus_id.as_slice())?;
        Ok(PciInfo {
            bus: struct_.bus,
            bus_id,
            device: struct_.device,
            domain: struct_.domain,
            pci_device_id: struct_.pci_device_id,
            pci_sub_system_id: if sub_sys_id_present {
                Some(struct_.pci_sub_system_id)
            } else {
                None
            },
        })
    }

    /// Builds the C structure for this `PciInfo`.
    ///
    /// The bus id is written nul-terminated and padded with nul bytes; the
    /// reserved fields are set to `u32::MAX`, and a missing sub system id to 0.
    ///
    /// # Errors
    ///
    /// * `NulError`, if the bus id holds a nul byte (at the position it gives)
    /// * `StringTooLong`, if the bus id and its terminating nul do not fit in
    /// `NVML_DEVICE_PCI_BUS_ID_BUFFER_SIZE` bytes
    pub fn try_into_c(self) -> (r: Result<RawPciInfo, NvmlError>)
        requires
            encode_utf8(self.bus_id@).len() < usize::MAX,
        ensures
            ({
                let bytes = encode_utf8(self.bus_id@);
                if fits_c_form(self) {
                    r matches Ok(raw) && is_c_form_of(raw, self)
                } else {
                    r matches Err(e) && is_c_form_error(e, self)
                }
            }),
    {
        proof {
            lemma_c_string_len_bound(encode_utf8(self.bus_id@));
        }
        let bytes = self.bus_id.as_str().as_bytes();
        let len = bytes.len();
        assert(bytes@ == encode_utf8(self.bus_id@));
        let mut i: usize = 0;
        while i < len
            invariant
                len == bytes@.len(),
                bytes@ == encode_utf8(self.bus_id@),
                0 <= i <= len,
                forall|j: int| 0 <= j < i ==> bytes@[j] != 0,
            decreases len - i,
        {
            if bytes[i] == 0 {
                proof {
                    lemma_c_string_len(bytes@, i as int);
                }
                return Err(NvmlError::NulError(i, vstd::slice::slice_to_vec(bytes)));
            }
            i = i + 1;
        }
        proof {
            lemma_c_string_len_of_nul_free(bytes@);
        }
        if len + 1 > NVML_DEVICE_PCI_BUS_ID_BUFFER_SIZE {
            return Err(
                NvmlError::StringTooLong {
                    max_len: NVML_DEVICE_PCI_BUS_ID_BUFFER_SIZE,
                    actual_len: len + 1,
                },
            );
        }
        let mut bus_id_c: Vec<u8> = Vec::new();
        let mut k: usize = 0;
        while k < NVML_DEVICE_PCI_BUS_ID_BUFFER_SIZE
            invariant
                len == bytes@.len(),
                len < NVML_DEVICE_PCI_BUS_ID_BUFFER_SIZE,
                0 <= k <= NVML_DEVICE_PCI_BUS_ID_BUFFER_SIZE,
                bus_id_c@.len() == k,
                forall|j: int| 0 <= j < k && j < len ==> bus_id_c@[j] == bytes@[j],
                forall|j: int| len <= j < k ==> bus_id_c@[j] == 0,
            decreases NVML_DEVICE_PCI_BUS_ID_BUFFER_SIZE - k,
        {
            if k < len {
                bus_id_c.push(bytes[k]);
            } else {
                bus_id_c.push(0);
            }
            k = k + 1;
        }
        assert(bus_id_c@ =~= bus_id_buffer(self.bus_id@));
        Ok(RawPciInfo {
            bus_id: bus_id_c,
            domain: self.domain,
            bus: self.bus,
            device: self.device,
            pci_device_id: self.pci_device_id,
            pci_sub_system_id: match self.pci_sub_system_id {
                Some(id) => id,
                None => 0,
            },
            reserved0: u32::MAX,
            reserved1: u32::MAX,
            reserved2: u32::MAX,
            reserved3: u32::MAX,
        })
    }
}

/// A byte sequence without nul bytes is a string of its full length.
proof fn lemma_c_string_len_of_nul_free(bytes: Seq<u8>)
    requires
        forall|j: int| 0 <= j < bytes.len() ==> bytes[j] != 0,
    ensures
        c_string_len(bytes) == bytes.len(),
    decreases bytes.len(),
{
    if bytes.len() > 0 {
        assert forall|j: int| 0 <= j < bytes.drop_first().len() implies bytes.drop_first()[j] != 0 by {
            assert(bytes.drop_first()[j] == bytes[j + 1]);
        }
        lemma_c_string_len_of_nul_free(bytes.drop_first());
    }
}

/// Reading the C structure that `PciInfo::try_into_c` builds gives back the
/// `PciInfo` that it was built from (with the sub system id read as present):
/// the C form holds a nul-terminated bus id whose bytes decode to the starting
/// bus id, and every other field unchanged.
pub proof fn lemma_pci_info_c_round_trip(info: PciInfo, raw: RawPciInfo, back: PciInfo)
    requires
        is_c_form_of(raw, info),
        fits_c_form(info),
        info.pci_sub_system_id is Some,
        is_read_from(back, raw, true),
    ensures
        is_nul_terminated(raw.bus_id@),
        back.bus_id@ == info.bus_id@,
        back.bus == info.bus,
        back.device == info.device,
        back.domain == info.domain,
        back.pci_device_id == info.pci_device_id,
        back.pci_sub_system_id == info.pci_sub_system_id,
{
    let bytes = encode_utf8(info.bus_id@);
    let buf = raw.bus_id@;
    let n = bytes.len() as int;
    assert(buf[n] == 0);
    assert forall|j: int| 0 <= j < n implies buf[j] != 0 by {
        assert(buf[j] == bytes[j]);
        if bytes[j] == 0 {
            let k = first_nul_at_most(bytes, j);
            lemma_c_string_len(bytes, k);
        }
    }
    lemma_c_string_len(buf, n);
    assert(c_string_bytes(buf) =~= bytes);
}

/// The index of the first nul byte of `bytes` at or before index `j`, where
/// `bytes[j]` is nul.
proof fn first_nul_at_most(bytes: Seq<u8>, j: int) -> (k: int)
    requires
        0 <= j < bytes.len(),
        bytes[j] == 0,
    ensures
        0 <= k <= j,
        bytes[k] == 0,
        forall|i: int| 0 <= i < k ==> bytes[i] != 0,
    decreases j,
{
    if exists|i: int| 0 <= i < j && bytes[i] == 0 {
        let i = choose|i: int| 0 <= i < j && bytes[i] == 0;
        first_nul_at_most(bytes, i)
    } else {
        j
    }
}

/// The contents of an `nvmlBAR1Memory_t`.
#[derive(Debug, Clone, Copy, PartialEq, Eq, Hash)]
pub struct RawBar1Memory {
    pub bar1_total: u64,
    pub bar1_free: u64,
    pub bar1_used: u64,
}

/// BAR1 memory allocation information for a device (in bytes).
#[derive(Debug, Clone, Copy, PartialEq, Eq, Hash)]
pub struct BAR1MemoryInfo {
    /// Unallocated
    pub free: u64,
    /// Total memory
    pub total: u64,
    /// Allocated
    pub used: u64,
}

impl FromSpecImpl<RawBar1Memory> for BAR1MemoryInfo {
    open spec fn obeys_from_spec() -> bool {
        true
    }

    open spec fn from_spec(struct_: RawBar1Memory) -> BAR1MemoryInfo {
        BAR1MemoryInfo {
            free: struct_.bar1_free,
            total: struct_.bar1_total,
            used: struct_.bar1_used,
        }
    }
}

impl From<RawBar1Memory> for BAR1MemoryInfo {
    fn from(struct_: RawBar1Memory) -> (r: BAR1MemoryInfo) {
        BAR1MemoryInfo {
            free: struct_.bar1_free,
            total: struct_.bar1_total,
            used: struct_.bar1_used,
        }
    }
}

/// The contents of an `nvmlEccErrorCounts_t`.
#[derive(Debug, Clone, Copy, PartialEq, Eq, Hash)]
pub struct RawEccErrorCounts {
    pub l1_cache: u64,
    pub l2_cache: u64,
    pub device_memory: u64,
    pub register_file: u64,
}

/// Detailed ECC error counts for a device.
#[derive(Debug, Clone, Copy, PartialEq, Eq, Hash)]
pub struct EccErrorCounts {
    pub device_memory: u64,
    pub l1_cache: u64,
    pub l2_cache: u64,
    pub register_file: u64,
}

impl FromSpecImpl<RawEccErrorCounts> for EccErrorCounts {
    open spec fn obeys_from_spec() -> bool {
        true
    }

    open spec fn from_spec(struct_: RawEccErrorCounts) -> EccErrorCounts {
        EccErrorCounts {
            device_memory: struct_.device_memory,
            l1_cache: struct_.l1_cache,
            l2_cache: struct_.l2_cache,
            register_file: struct_.register_file,
        }
    }
}

impl From<RawEccErrorCounts> for EccErrorCounts {
    fn from(struct_: RawEccErrorCounts) -> (r: EccErrorCounts) {
        EccErrorCounts {
            device_memory: struct_.device_memory,
            l1_cache: struct_.l1_cache,
            l2_cache: struct_.l2_cache,
            register_file: struct_.register_file,
        }
    }
}

/// The contents of an `nvmlMemory_t`.
#[derive(Debug, Clone, Copy, PartialEq, Eq, Hash)]
pub struct RawMemory {
    pub total: u64,
    pub free: u64,
    pub used: u64,
}

/// Memory allocation information for a device (in bytes).
#[derive(Debug, Clone, Copy, PartialEq, Eq, Hash)]
pub struct MemoryInfo {
    /// Unallocated FB memory.
    pub free: u64,
    /// Total installed FB memory.
    pub total: u64,
    /// Allocated FB memory.
    pub used: u64,
}

impl FromSpecImpl<RawMemory> for MemoryInfo {
    open spec fn obeys_from_spec() -> bool {
        true
    }

    open spec fn from_spec(struct_: RawMemory) -> MemoryInfo {
        MemoryInfo {
            free: struct_.free,
            total: struct_.total,
            used: struct_.used,
        }
    }
}

impl From<RawMemory> for MemoryInfo {
    fn from(struct_: RawMemory) -> (r: MemoryInfo) {
        MemoryInfo {
            free: struct_.free,
            total: struct_.total,
            used: struct_.used,
        }
    }
}

/// The contents of an `nvmlUtilization_t`.
#[derive(Debug, Clone, Copy, PartialEq, Eq, Hash)]
pub struct RawUtilization {
    pub gpu: u32,
    pub memory: u32,
}

/// Utilization information for a device. Each sample period may be between 1
/// second and 1/6 second, depending on the product being queried.
#[derive(Debug, Clone, Copy, PartialEq, Eq, Hash)]
pub struct Utilization {
    /// Percent of time over the past sample period during which one or more
    /// kernels was executing on the GPU.
    pub gpu: u32,
    /// Percent of time over the past sample period during which global (device)
    /// memory was being read or written to.
    pub memory: u32,
}

impl FromSpecImpl<RawUtilization> for Utilization {
    open spec fn obeys_from_spec() -> bool {
        true
    }

    open spec fn from_spec(struct_: RawUtilization) -> Utilization {
        Utilization {
            gpu: struct_.gpu,
            memory: struct_.memory,
        }
    }
}

impl From<RawUtilization> for Utilization {
    fn from(struct_: RawUtilization) -> (r: Utilization) {
        Utilization {
            gpu: struct_.gpu,
            memory: struct_.memory,
        }
    }
}

/// The contents of an `nvmlViolationTime_t`.
#[derive(Debug, Clone, Copy, PartialEq, Eq, Hash)]
pub struct RawViolationTime {
    pub reference_time: u64,
    pub violation_time: u64,
}

/// Performance policy violation status data.
#[derive(Debug, Clone, Copy, PartialEq, Eq, Hash)]
pub struct ViolationTime {
    /// Represents CPU timestamp in microseconds.
    pub reference_time: u64,
    /// Violation time in nanoseconds.
    pub violation_time: u64,
}

impl FromSpecImpl<RawViolationTime> for ViolationTime {
    open spec fn obeys_from_spec() -> bool {
        true
    }

    open spec fn from_spec(struct_: RawViolationTime) -> ViolationTime {
        ViolationTime {
            reference_time: struct_.reference_time,
            violation_time: struct_.violation_time,
        }
    }
}

impl From<RawViolationTime> for ViolationTime {
    fn from(struct_: RawViolationTime) -> (r: ViolationTime) {
        ViolationTime {
            reference_time: struct_.reference_time,
            violation_time: struct_.violation_time,
        }
    }
}

/// The contents of an `nvmlProcessInfo_t`.
#[derive(Debug, Clone, Copy, PartialEq, Eq, Hash)]
pub struct RawProcessInfo {
    pub pid: u32,
    pub used_gpu_memory: u64,
}

/// Information about compute processes running on the GPU.
#[derive(Debug, Clone, Copy, PartialEq, Eq, Hash)]
pub struct ProcessInfo {
    /// Process ID.
    pub pid: u32,
    /// Amount of used GPU memory in bytes.
    pub used_gpu_memory: UsedGpuMemory,
}

impl FromSpecImpl<RawProcessInfo> for ProcessInfo {
    open spec fn obeys_from_spec() -> bool {
        true
    }

    open spec fn from_spec(struct_: RawProcessInfo) -> ProcessInfo {
        ProcessInfo { pid: struct_.pid, used_gpu_memory: <UsedGpuMemory as FromSpec<u64>>::from_spec(struct_.used_gpu_memory) }
    }
}

impl From<RawProcessInfo> for ProcessInfo {
    fn from(struct_: RawProcessInfo) -> (r: ProcessInfo) {
        ProcessInfo { pid: struct_.pid, used_gpu_memory: UsedGpuMemory::from(struct_.used_gpu_memory) }
    }
}

/// The contents of an `nvmlAccountingStats_t` (without its reserved words).
#[derive(Debug, Clone, Copy, PartialEq, Eq, Hash)]
pub struct RawAccountingStats {
    pub gpu_utilization: u32,
    pub memory_utilization: u32,
    pub max_memory_usage: u64,
    pub time: u64,
    pub start_time: u64,
    pub is_running: u32,
}

/// Accounting statistics for a process.
#[derive(Debug, Clone, Copy, PartialEq, Eq, Hash)]
pub struct AccountingStats {
    /// Percent of time over the process's lifetime during which one or more kernels was
    /// executing on the GPU; `None` if utilization rates are not supported.
    pub gpu_utilization: Option<u32>,
    /// Whether the process is running.
    pub is_running: bool,
    /// Max total memory in bytes that was ever allocated by the process; `None`
    /// if used GPU memory is not supported.
    pub max_memory_usage: Option<u64>,
    /// Percent of time over the process's lifetime during which global (device) memory
    /// was being read from or written to; `None` if utilization rates are not supported.
    pub memory_utilization: Option<u32>,
    /// CPU timestamp in usec representing the start time for the process.
    pub start_time: u64,
    /// Amount of time in ms during which the compute context was active. This
    /// will be zero if the process is not terminated.
    pub time: u64,
}

/// A 32-bit statistic, `None` where NVML reports it as not available.
pub open spec fn available_u32(v: u32) -> Option<u32> {
    if v == NVML_VALUE_NOT_AVAILABLE_U32 { None } else { Some(v) }
}

/// A 64-bit statistic, `None` where NVML reports it as not available.
pub open spec fn available_u64(v: u64) -> Option<u64> {
    if v == NVML_VALUE_NOT_AVAILABLE_U64 { None } else { Some(v) }
}

impl FromSpecImpl<RawAccountingStats> for AccountingStats {
    open spec fn obeys_from_spec() -> bool {
        true
    }

    open spec fn from_spec(struct_: RawAccountingStats) -> AccountingStats {
        AccountingStats {
            gpu_utilization: available_u32(struct_.gpu_utilization),
            is_running: struct_.is_running != 0,
            max_memory_usage: available_u64(struct_.max_memory_usage),
            memory_utilization: available_u32(struct_.memory_utilization),
            start_time: struct_.start_time,
            time: struct_.time,
        }
    }
}

impl From<RawAccountingStats> for AccountingStats {
    fn from(struct_: RawAccountingStats) -> (r: AccountingStats) {
        AccountingStats {
            gpu_utilization: if struct_.gpu_utilization == NVML_VALUE_NOT_AVAILABLE_U32 {
                None
            } else {
                Some(struct_.gpu_utilization)
            },
            // NVIDIA only says that 1 means running; no other value warrants an error.
            is_running: struct_.is_running != 0,
            max_memory_usage: if struct_.max_memory_usage == NVML_VALUE_NOT_AVAILABLE_U64 {
                None
            } else {
                Some(struct_.max_memory_usage)
            },
            memory_utilization: if struct_.memory_utilization == NVML_VALUE_NOT_AVAILABLE_U32 {
                None
            } else {
                Some(struct_.memory_utilization)
            },
            start_time: struct_.start_time,
            time: struct_.time,
        }
    }
}

/// The contents of an `nvmlSample_t`.
#[derive(Debug, Clone, Copy, PartialEq, Eq, Hash)]
pub struct RawSample {
    pub time_stamp: u64,
    pub sample_value: NvmlValue,
}

/// Sample info.
#[derive(Debug, Clone, Copy, PartialEq, Eq, Hash)]
pub struct Sample {
    /// CPU timestamp in microseconds.
    pub timestamp: u64,
    pub value: SampleValue,
}

impl Sample {
    /// The sample that a C sample stands for when its value has type `tag`.
    pub open spec fn of_tag_and_struct(tag: SampleValueType, struct_: RawSample) -> Sample {
        Sample {
            timestamp: struct_.time_stamp,
            value: SampleValue::of_tag_and_union(tag, struct_.sample_value),
        }
    }

    /// Given a tag and a C sample with an untagged union, returns the sample
    /// with the union member that the tag names.
    pub fn from_tag_and_struct(tag: &SampleValueType, struct_: RawSample) -> (r: Sample)
        ensures
            r == Sample::of_tag_and_struct(*tag, struct_),
    {
        Sample {
            timestamp: struct_.time_stamp,
            value: SampleValue::from_tag_and_union(tag, struct_.sample_value),
        }
    }
}

/// The contents of an `nvmlBridgeChipInfo_t`.
#[derive(Debug, Clone, Copy, PartialEq, Eq, Hash)]
pub struct RawBridgeChipInfo {
    /// The `nvmlBridgeChipType_t` value.
    pub type_: u32,
    pub fw_version: u32,
}

/// Information about a bridge chip.
#[derive(Debug, Clone, Copy, PartialEq, Eq, Hash)]
pub struct BridgeChipInfo {
    pub fw_version: FirmwareVersion,
    pub chip_type: BridgeChip,
}

/// What `BridgeChipInfo::try_from` gives for a C bridge chip entry.
pub open spec fn bridge_chip_info_of(struct_: RawBridgeChipInfo) -> Result<BridgeChipInfo, NvmlError> {
    match from_c_result(BridgeChip::from_c(struct_.type_), struct_.type_) {
        Ok(chip_type) => Ok(
            BridgeChipInfo { fw_version: <FirmwareVersion as FromSpec<u32>>::from_spec(struct_.fw_version), chip_type },
        ),
        Err(e) => Err(e),
    }
}

impl BridgeChipInfo {
    /// Builds a `BridgeChipInfo` from the corresponding C structure.
    ///
    /// # Errors
    ///
    /// * `UnexpectedVariant`, if the chip type is not a known bridge chip
    pub fn try_from(struct_: RawBridgeChipInfo) -> (r: Result<BridgeChipInfo, NvmlError>)
        ensures
            r == bridge_chip_info_of(struct_),
    {
        let fw_version = FirmwareVersion::from(struct_.fw_version);
        let chip_type = BridgeChip::try_from(struct_.type_)?;
        Ok(BridgeChipInfo { fw_version, chip_type })
    }
}

/// The contents of an `nvmlBridgeChipHierarchy_t`.
#[derive(Debug, Clone, PartialEq, Eq, Hash)]
pub struct RawBridgeChipHierarchy {
    pub bridge_count: u8,
    /// Every entry of the `bridgeChipInfo` array.
    pub bridge_chip_info: Vec<RawBridgeChipInfo>,
}

/// The complete hierarchy of the bridge chip within the board.
///
/// The immediate bridge is stored at index 0 of `chips_hierarchy`. The parent to
/// the immediate bridge is at index 1, and so forth.
#[derive(Debug, Clone, PartialEq, Eq, Hash)]
pub struct BridgeChipHierarchy {
    /// Hierarchy of bridge chips on the board.
    pub chips_hierarchy: Vec<BridgeChipInfo>,
    /// Number of bridge chips on the board.
    pub chip_count: u8,
}

impl BridgeChipHierarchy {
    /// Builds a `BridgeChipHierarchy` from the corresponding C structure,
    /// converting every entry of its array in order.
    ///
    /// # Errors
    ///
    /// * `UnexpectedVariant`, for the first entry whose chip type is not a known
    /// bridge chip
    pub fn try_from(struct_: RawBridgeChipHierarchy) -> (r: Result<BridgeChipHierarchy, NvmlError>)
        ensures
            match r {
                Ok(h) => {
                    &&& h.chip_count == struct_.bridge_count
                    &&& h.chips_hierarchy@.len() == struct_.bridge_chip_info@.len()
                    &&& forall|i: int|
                        0 <= i < struct_.bridge_chip_info@.len() ==> bridge_chip_info_of(
                            #[trigger] struct_.bridge_chip_info@[i],
                        ) == Ok::<BridgeChipInfo, NvmlError>(h.chips_hierarchy@[i])
                },
                Err(e) => exists|k: int|
                    0 <= k < struct_.bridge_chip_info@.len() && bridge_chip_info_of(
                        #[trigger] struct_.bridge_chip_info@[k],
                    ) == Err::<BridgeChipInfo, NvmlError>(e) && forall|i: int|
                        0 <= i < k ==> bridge_chip_info_of(struct_.bridge_chip_info@[i]) is Ok,
            },
    {
        let mut chips_hierarchy: Vec<BridgeChipInfo> = Vec::new();
        let n = struct_.bridge_chip_info.len();
        let mut i: usize = 0;
        while i < n
            invariant
                n == struct_.bridge_chip_info@.len(),
                0 <= i <= n,
                chips_hierarchy@.len() == i,
                forall|j: int|
                    0 <= j < i ==> bridge_chip_info_of(#[trigger] struct_.bridge_chip_info@[j])
                        == Ok::<BridgeChipInfo, NvmlError>(chips_hierarchy@[j]),
            decreases n - i,
        {
            match BridgeChipInfo::try_from(struct_.bridge_chip_info[i]) {
                Ok(info) => chips_hierarchy.push(info),
                Err(e) => {
                    assert(forall|j: int| 0 <= j < i ==> bridge_chip_info_of(struct_.bridge_chip_info@[j]) is Ok);
                    return Err(e);
                },
            }
            i = i + 1;
        }
        Ok(BridgeChipHierarchy { chips_hierarchy, chip_count: struct_.bridge_count })
    }
}

/// A statistic equal to NVML's "value not available" (all bits set) is
/// absent; any other value is present as it is.
pub proof fn lemma_available_values(a: u32, b: u64)
    ensures
        available_u32(0xffff_ffffu32) is None,
        available_u64(0xffff_ffff_ffff_ffffu64) is None,
        a != 0xffff_ffffu32 ==> available_u32(a) == Some(a),
        b != 0xffff_ffff_ffff_ffffu64 ==> available_u64(b) == Some(b),
{
}


/// NVML's C bus id buffer holds 16 bytes: a bus id can be laid out in it
/// exactly when its UTF-8 form holds no nul byte and at most 15 bytes, and its
/// layout then takes all 16.
pub proof fn lemma_bus_id_buffer_size(info: PciInfo)
    ensures
        fits_c_form(info) <==> (c_string_len(encode_utf8(info.bus_id@)) == encode_utf8(info.bus_id@).len()
            && encode_utf8(info.bus_id@).len() <= 15),
        fits_c_form(info) ==> bus_id_buffer(info.bus_id@).len() == 16,
{
}

} // verus!
