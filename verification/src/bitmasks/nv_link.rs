//! Flags for NvLink utilization counters.
use vstd::prelude::*;

verus! {

/// Represents the NvLink utilization counter packet types that can be counted.
///
/// Only applicable when `UtilizationCountUnit`s are packets or bytes. All
/// packet filter descriptions are target GPU centric. The defined flags are the
/// `NVML_NVLINK_COUNTER_PKTFILTER_*` values of `crate::bindings` other than
/// `ALL`: no-op, read, write, reduction atomic, non-reduction atomic, flush,
/// responses with data and responses without data.
#[derive(Debug, Clone, Copy, PartialEq, Eq, Hash)]
pub struct PacketTypes {
    bits: u32,
}

impl View for PacketTypes {
    type V = u32;

    closed spec fn view(&self) -> u32 {
        self.bits
    }
}

impl PacketTypes {
    /// The bits of all flags that this type defines: the eight packet filters.
    pub open spec fn all_bits() -> u32 {
        0xffu32
    }

    /// Every value holds only bits of defined flags.
    #[verifier::type_invariant]
    spec fn only_defined_bits(self) -> bool {
        self.bits & !0xffu32 == 0
    }

    /// The set of no flags.
    pub fn empty() -> (r: PacketTypes)
        ensures
            r@ == 0,
    {
        assert(0u32 & !0xffu32 == 0) by (bit_vector);
        PacketTypes { bits: 0 }
    }

    /// The set of all defined flags.
    pub fn all() -> (r: PacketTypes)
        ensures
            r@ == PacketTypes::all_bits(),
    {
        assert(0xffu32 & !0xffu32 == 0) by (bit_vector);
        PacketTypes { bits: 0xffu32 }
    }

    /// The raw bits of this set of flags; they never include an undefined flag.
    pub fn bits(&self) -> (r: u32)
        ensures
            r == self@,
            r & !PacketTypes::all_bits() == 0,
    {
        proof {
            use_type_invariant(self);
        }
        self.bits
    }

    /// Interprets raw bits as flags, or `None` if any bit is not a defined flag.
    pub fn from_bits(bits: u32) -> (r: Option<PacketTypes>)
        ensures
            r is Some <==> bits & !PacketTypes::all_bits() == 0,
            r matches Some(f) ==> f@ == bits,
    {
        if bits & !0xffu32 == 0 {
            Some(PacketTypes { bits })
        } else {
            None
        }
    }

    /// Interprets raw bits as flags, dropping every bit that is not a defined flag.
    pub fn from_bits_truncate(bits: u32) -> (r: PacketTypes)
        ensures
            r@ == bits & PacketTypes::all_bits(),
    {
        assert((bits & 0xffu32) & !0xffu32 == 0) by (bit_vector);
        PacketTypes { bits: bits & 0xffu32 }
    }

    /// Whether every flag of `other` is also in `self`.
    pub fn contains(&self, other: PacketTypes) -> (r: bool)
        ensures
            r == (self@ & other@ == other@),
    {
        self.bits & other.bits == other.bits
    }

    /// Whether `self` and `other` have a flag in common.
    pub fn intersects(&self, other: PacketTypes) -> (r: bool)
        ensures
            r == (self@ & other@ != 0),
    {
        self.bits & other.bits != 0
    }

    /// The flags that are in `self` or in `other`.
    pub fn union(self, other: PacketTypes) -> (r: PacketTypes)
        ensures
            r@ == self@ | other@,
    {
        proof {
            use_type_invariant(&self);
            use_type_invariant(&other);
            let (a, b) = (self.bits, other.bits);
            assert(a & !0xffu32 == 0 && b & !0xffu32 == 0 ==> (a | b) & !0xffu32 == 0)
                by (bit_vector);
        }
        PacketTypes { bits: self.bits | other.bits }
    }

}

/// Truncating raw bits yields flags that the strict interpretation accepts, and
/// on bits that it accepts the two interpretations agree.
pub proof fn lemma_packettypes_truncate_agrees_with_strict(bits: u32)
    ensures
        (bits & PacketTypes::all_bits()) & !PacketTypes::all_bits() == 0,
        bits & !PacketTypes::all_bits() == 0 ==> bits & PacketTypes::all_bits() == bits,
{
    assert((bits & 0xffu32) & !0xffu32 == 0) by (bit_vector);
    assert(bits & !0xffu32 == 0 ==> bits & 0xffu32 == bits) by (bit_vector);
}

} // verus!
