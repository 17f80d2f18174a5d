//! Flags that device calls return.
use vstd::prelude::*;

verus! {

/// Flags used to specify why a GPU is throttling.
///
/// The defined flags are the `NVML_CLOCKS_THROTTLE_REASON_*` values of
/// `crate::bindings`: GPU idle, applications clocks setting (formerly user
/// defined clocks), software power cap, hardware slowdown, sync boost and
/// unknown; no flag at all means that clocks are not throttled.
#[derive(Debug, Clone, Copy, PartialEq, Eq, Hash)]
pub struct ThrottleReasons {
    bits: u64,
}

impl View for ThrottleReasons {
    type V = u64;

    closed spec fn view(&self) -> u64 {
        self.bits
    }
}

impl ThrottleReasons {
    /// The bits of all flags that this type defines: GPU idle, applications clocks setting, software power cap, hardware slowdown, sync boost and unknown.
    pub open spec fn all_bits() -> u64 {
        0x8000_0000_0000_001fu64
    }

    /// Every value holds only bits of defined flags.
    #[verifier::type_invariant]
    spec fn only_defined_bits(self) -> bool {
        self.bits & !0x8000_0000_0000_001fu64 == 0
    }

    /// The set of no flags.
    pub fn empty() -> (r: ThrottleReasons)
        ensures
            r@ == 0,
    {
        assert(0u64 & !0x8000_0000_0000_001fu64 == 0) by (bit_vector);
        ThrottleReasons { bits: 0 }
    }

    /// The set of all defined flags.
    pub fn all() -> (r: ThrottleReasons)
        ensures
            r@ == ThrottleReasons::all_bits(),
    {
        assert(0x8000_0000_0000_001fu64 & !0x8000_0000_0000_001fu64 == 0) by (bit_vector);
        ThrottleReasons { bits: 0x8000_0000_0000_001fu64 }
    }

    /// The raw bits of this set of flags; they never include an undefined flag.
    pub fn bits(&self) -> (r: u64)
        ensures
            r == self@,
            r & !ThrottleReasons::all_bits() == 0,
    {
        proof {
            use_type_invariant(self);
        }
        self.bits
    }

    /// Interprets raw bits as flags, or `None` if any bit is not a defined flag.
    pub fn from_bits(bits: u64) -> (r: Option<ThrottleReasons>)
        ensures
            r is Some <==> bits & !ThrottleReasons::all_bits() == 0,
            r matches Some(f) ==> f@ == bits,
    {
        if bits & !0x8000_0000_0000_001fu64 == 0 {
            Some(ThrottleReasons { bits })
        } else {
            None
        }
    }

    /// Interprets raw bits as flags, dropping every bit that is not a defined flag.
    pub fn from_bits_truncate(bits: u64) -> (r: ThrottleReasons)
        ensures
            r@ == bits & ThrottleReasons::all_bits(),
    {
        assert((bits & 0x8000_0000_0000_001fu64) & !0x8000_0000_0000_001fu64 == 0) by (bit_vector);
        ThrottleReasons { bits: bits & 0x8000_0000_0000_001fu64 }
    }

    /// Whether every flag of `other` is also in `self`.
    pub fn contains(&self, other: ThrottleReasons) -> (r: bool)
        ensures
            r == (self@ & other@ == other@),
    {
        self.bits & other.bits == other.bits
    }

    /// Whether `self` and `other` have a flag in common.
    pub fn intersects(&self, other: ThrottleReasons) -> (r: bool)
        ensures
            r == (self@ & other@ != 0),
    {
        self.bits & other.bits != 0
    }

    /// The flags that are in `self` or in `other`.
    pub fn union(self, other: ThrottleReasons) -> (r: ThrottleReasons)
        ensures
            r@ == self@ | other@,
    {
        proof {
            use_type_invariant(&self);
            use_type_invariant(&other);
            let (a, b) = (self.bits, other.bits);
            assert(a & !0x8000_0000_0000_001fu64 == 0 && b & !0x8000_0000_0000_001fu64 == 0 ==> (a | b) & !0x8000_0000_0000_001fu64 == 0)
                by (bit_vector);
        }
        ThrottleReasons { bits: self.bits | other.bits }
    }

}

/// Truncating raw bits yields flags that the strict interpretation accepts, and
/// on bits that it accepts the two interpretations agree.
pub proof fn lemma_throttlereasons_truncate_agrees_with_strict(bits: u64)
    ensures
        (bits & ThrottleReasons::all_bits()) & !ThrottleReasons::all_bits() == 0,
        bits & !ThrottleReasons::all_bits() == 0 ==> bits & ThrottleReasons::all_bits() == bits,
{
    assert((bits & 0x8000_0000_0000_001fu64) & !0x8000_0000_0000_001fu64 == 0) by (bit_vector);
    assert(bits & !0x8000_0000_0000_001fu64 == 0 ==> bits & 0x8000_0000_0000_001fu64 == bits) by (bit_vector);
}

} // verus!
