//! Rust structures built from the C structures that NVML fills in, and the
//! decoding of the nul-terminated strings that those structures hold.
use vstd::prelude::*;
use vstd::utf8::{decode_utf8, valid_utf8};

use crate::error::NvmlError;
use crate::struct_wrappers::device::{is_read_from, PciInfo, RawPciInfo};

pub mod device;
pub mod event;
pub mod nv_link;
pub mod unit;

verus! {

/// The number of bytes before the first nul byte of a C character buffer (the
/// whole buffer when it holds no nul byte).
pub open spec fn c_string_len(buf: Seq<u8>) -> nat
    decreases buf.len(),
{
    if buf.len() == 0 {
        0
    } else if buf[0] == 0 {
        0
    } else {
        1 + c_string_len(buf.drop_first())
    }
}

/// The bytes of the nul-terminated string at the start of a C character buffer.
pub open spec fn c_string_bytes(buf: Seq<u8>) -> Seq<u8> {
    buf.take(c_string_len(buf) as int)
}

/// Whether a C character buffer holds a nul byte, so that the string at its
/// start is terminated within it.
pub open spec fn is_nul_terminated(buf: Seq<u8>) -> bool {
    exists|i: int| 0 <= i < buf.len() && buf[i] == 0
}

/// Whether the first `n` bytes are the longest prefix of `bytes` that is
/// valid UTF-8.
pub open spec fn is_longest_valid_prefix(bytes: Seq<u8>, n: int) -> bool {
    &&& 0 <= n <= bytes.len()
    &&& valid_utf8(bytes.take(n))
    &&& forall|m: int| n < m <= bytes.len() ==> !valid_utf8(#[trigger] bytes.take(m))
}

/// The length of the longest prefix of `bytes` that is valid UTF-8.
pub open spec fn utf8_valid_up_to(bytes: Seq<u8>) -> int {
    choose|n: int| is_longest_valid_prefix(bytes, n)
}

/// The longest valid prefix is unique.
pub proof fn lemma_longest_valid_prefix_unique(bytes: Seq<u8>, n: int)
    requires
        is_longest_valid_prefix(bytes, n),
    ensures
        utf8_valid_up_to(bytes) == n,
{
    let k = utf8_valid_up_to(bytes);
    assert(is_longest_valid_prefix(bytes, k));
    if k < n {
        assert(!valid_utf8(bytes.take(n)));
    } else if n < k {
        assert(!valid_utf8(bytes.take(k)));
    }
}

/// What reading the string at the start of a C character buffer gives: its
/// characters, or `Utf8Error` with the length of its longest valid prefix when
/// its bytes are not UTF-8.
pub open spec fn c_string_result(buf: Seq<u8>) -> Result<Seq<char>, NvmlError> {
    if valid_utf8(c_string_bytes(buf)) {
        Ok(decode_utf8(c_string_bytes(buf)))
    } else {
        Err(NvmlError::Utf8Error { valid_up_to: utf8_valid_up_to(c_string_bytes(buf)) as usize })
    }
}

/// The string at the start of a buffer is no longer than the buffer.
pub proof fn lemma_c_string_len_bound(buf: Seq<u8>)
    ensures
        c_string_len(buf) <= buf.len(),
    decreases buf.len(),
{
    if buf.len() > 0 {
        lemma_c_string_len_bound(buf.drop_first());
    }
}

/// The length of the string is the index of the first nul byte.
pub proof fn lemma_c_string_len(buf: Seq<u8>, i: int)
    requires
        0 <= i < buf.len(),
        buf[i] == 0,
        forall|j: int| 0 <= j < i ==> buf[j] != 0,
    ensures
        c_string_len(buf) == i,
    decreases i,
{
    if i > 0 {
        lemma_c_string_len(buf.drop_first(), i - 1);
    }
}

/// `std::str::from_utf8` on the given bytes, the `str` it gives owned as a
/// `String`, or the `valid_up_to()` of the error it gives.
///
/// The standard library documents that `from_utf8` returns `Ok` exactly when
/// the bytes are valid UTF-8, and then a string slice of those bytes; and that
/// `valid_up_to()` is the largest index such that `from_utf8` accepts the bytes
/// before it. The contract states this with the UTF-8 definitions of
/// `vstd::utf8`. The error's `error_len()` is not carried.
#[verifier::external_body]
fn string_from_utf8(bytes: &[u8]) -> (r: Result<String, usize>)
    ensures
        r is Ok <==> valid_utf8(bytes@),
        r matches Ok(s) ==> s@ == decode_utf8(bytes@),
        r matches Err(n) ==> is_longest_valid_prefix(bytes@, n as int),
{
    match std::str::from_utf8(bytes) {
        Ok(s) => Ok(s.to_owned()),
        Err(e) => Err(e.valid_up_to()),
    }
}

/// Reads the nul-terminated string at the start of a C character buffer.
///
/// # Errors
///
/// * `Utf8Error`, if the string is not valid UTF-8
pub fn string_from_c_buffer(buf: &[u8]) -> (r: Result<String, NvmlError>)
    requires
        is_nul_terminated(buf@),
    ensures
        match r {
            Ok(s) => c_string_result(buf@) == Ok::<Seq<char>, NvmlError>(s@),
            Err(e) => c_string_result(buf@) == Err::<Seq<char>, NvmlError>(e),
        },
{
    let mut bytes: Vec<u8> = Vec::new();
    let mut i: usize = 0;
    while i < buf.len() && buf[i] != 0
        invariant
            0 <= i <= buf.len(),
            forall|j: int| 0 <= j < i ==> buf@[j] != 0,
            bytes@ == buf@.take(i as int),
        decreases buf.len() - i,
    {
        bytes.push(buf[i]);
        i = i + 1;
        assert(bytes@ =~= buf@.take(i as int));
    }
    proof {
        if i == buf.len() {
            let k = choose|k: int| 0 <= k < buf@.len() && buf@[k] == 0;
            assert(buf@[k] != 0);
        }
        lemma_c_string_len(buf@, i as int);
    }
    match string_from_utf8(bytes.as_slice()) {
        Ok(s) => Ok(s),
        Err(n) => {
            proof {
                lemma_longest_valid_prefix_unique(bytes@, n as int);
            }
            Err(NvmlError::Utf8Error { valid_up_to: n })
        },
    }
}

/// The contents of an `nvmlBlacklistDeviceInfo_t`.
#[derive(Debug, Clone, PartialEq, Eq, Hash)]
pub struct RawBlacklistDeviceInfo {
    pub pci_info: RawPciInfo,
    /// The `uuid` character buffer, a nul-terminated string.
    pub uuid: Vec<u8>,
}

/// Information about a blacklisted device.
#[derive(Debug, Clone, PartialEq, Eq, Hash)]
pub struct BlacklistDeviceInfo {
    pub pci_info: PciInfo,
    pub uuid: String,
}

impl BlacklistDeviceInfo {
    /// Builds a `BlacklistDeviceInfo` from the corresponding C structure, the
    /// PCI information first.
    ///
    /// # Errors
    ///
    /// * `Utf8Error`, if the bus id or the uuid is not valid UTF-8
    pub fn try_from(struct_: RawBlacklistDeviceInfo) -> (r: Result<BlacklistDeviceInfo, NvmlError>)
        requires
            is_nul_terminated(struct_.pci_info.bus_id@),
            is_nul_terminated(struct_.uuid@),
        ensures
            match r {
                Ok(info) => {
                    &&& is_read_from(info.pci_info, struct_.pci_info, true)
                    &&& c_string_result(struct_.uuid@) == Ok::<Seq<char>, NvmlError>(info.uuid@)
                },
                Err(e) => c_string_result(struct_.pci_info.bus_id@) == Err::<Seq<char>, NvmlError>(e)
                    || (c_string_result(struct_.pci_info.bus_id@) is Ok && c_string_result(
                    struct_.uuid@,
                ) == Err::<Seq<char>, NvmlError>(e)),
            },
    {
        let pci_info = PciInfo::try_from(struct_.pci_info, true)?;
        let uuid = string_from_c_buffer(struct_.uuid.as_slice())?;
        Ok(BlacklistDeviceInfo { pci_info, uuid })
    }
}

} // verus!
