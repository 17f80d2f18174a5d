//! Flags for the events that can be registered and waited for.
use vstd::prelude::*;

verus! {

/// Event types that a device can report.
///
/// The defined flags are the `NVML_EVENT_TYPE_*` values of `crate::bindings`:
/// single bit ECC error, double bit ECC error, power state change, critical
/// XID error and clock change.
#[derive(Debug, Clone, Copy, PartialEq, Eq, Hash)]
pub struct EventTypes {
    bits: u64,
}

impl View for EventTypes {
    type V = u64;

    closed spec fn view(&self) -> u64 {
        self.bits
    }
}

impl EventTypes {
    /// The bits of all flags that this type defines: single bit ECC error, double bit ECC error, power state change, critical XID error and clock change.
    pub open spec fn all_bits() -> u64 {
        0x1fu64
    }

    /// Every value holds only bits of defined flags.
    #[verifier::type_invariant]
    spec fn only_defined_bits(self) -> bool {
        self.bits & !0x1fu64 == 0
    }

    /// Two sets of flags with the same bits are the same set.
    pub proof fn lemma_view_injective(a: EventTypes, b: EventTypes)
        requires
            a@ == b@,
        ensures
            a == b,
    {
    }

    /// The set of no flags.
    pub fn empty() -> (r: EventTypes)
        ensures
            r@ == 0,
    {
        assert(0u64 & !0x1fu64 == 0) by (bit_vector);
        EventTypes { bits: 0 }
    }

    /// The set of all defined flags.
    pub fn all() -> (r: EventTypes)
        ensures
            r@ == EventTypes::all_bits(),
    {
        assert(0x1fu64 & !0x1fu64 == 0) by (bit_vector);
        EventTypes { bits: 0x1fu64 }
    }

    /// The raw bits of this set of flags; they never include an undefined flag.
    pub fn bits(&self) -> (r: u64)
        ensures
            r == self@,
            r & !EventTypes::all_bits() == 0,
    {
        proof {
            use_type_invariant(self);
        }
        self.bits
    }

    /// Interprets raw bits as flags, or `None` if any bit is not a defined flag.
    pub fn from_bits(bits: u64) -> (r: Option<EventTypes>)
        ensures
            r is Some <==> bits & !EventTypes::all_bits() == 0,
            r matches Some(f) ==> f@ == bits,
    {
        if bits & !0x1fu64 == 0 {
            Some(EventTypes { bits })
        } else {
            None
        }
    }

    /// Interprets raw bits as flags, dropping every bit that is not a defined flag.
    pub fn from_bits_truncate(bits: u64) -> (r: EventTypes)
        ensures
            r@ == bits & EventTypes::all_bits(),
    {
        assert((bits & 0x1fu64) & !0x1fu64 == 0) by (bit_vector);
        EventTypes { bits: bits & 0x1fu64 }
    }

    /// Whether every flag of `other` is also in `self`.
    pub fn contains(&self, other: EventTypes) -> (r: bool)
        ensures
            r == (self@ & other@ == other@),
    {
        self.bits & other.bits == other.bits
    }

    /// Whether `self` and `other` have a flag in common.
    pub fn intersects(&self, other: EventTypes) -> (r: bool)
        ensures
            r == (self@ & other@ != 0),
    {
        self.bits & other.bits != 0
    }

    /// The flags that are in `self` or in `other`.
    pub fn union(self, other: EventTypes) -> (r: EventTypes)
        ensures
            r@ == self@ | other@,
    {
        proof {
            use_type_invariant(&self);
            use_type_invariant(&other);
            let (a, b) = (self.bits, other.bits);
            assert(a & !0x1fu64 == 0 && b & !0x1fu64 == 0 ==> (a | b) & !0x1fu64 == 0)
                by (bit_vector);
        }
        EventTypes { bits: self.bits | other.bits }
    }

}

/// Truncating raw bits yields flags that the strict interpretation accepts, and
/// on bits that it accepts the two interpretations agree.
pub proof fn lemma_eventtypes_truncate_agrees_with_strict(bits: u64)
    ensures
        (bits & EventTypes::all_bits()) & !EventTypes::all_bits() == 0,
        bits & !EventTypes::all_bits() == 0 ==> bits & EventTypes::all_bits() == bits,
{
    assert((bits & 0x1fu64) & !0x1fu64 == 0) by (bit_vector);
    assert(bits & !0x1fu64 == 0 ==> bits & 0x1fu64 == bits) by (bit_vector);
}

} // verus!
