//! Bit flags that NVML calls take and return.
use vstd::prelude::*;

pub mod device;
pub mod event;
pub mod nv_link;

verus! {

/// Generic flags used to specify the default behavior of some functions.
///
/// The defined flag is `NVML_FLAG_FORCE` of `crate::bindings`;
/// `NVML_FLAG_DEFAULT` is no flag at all.
#[derive(Debug, Clone, Copy, PartialEq, Eq, Hash)]
pub struct Behavior {
    bits: u32,
}

impl View for Behavior {
    type V = u32;

    closed spec fn view(&self) -> u32 {
        self.bits
    }
}

impl Behavior {
    /// The bits of all flags that this type defines: force.
    pub open spec fn all_bits() -> u32 {
        0x1u32
    }

    /// Every value holds only bits of defined flags.
    #[verifier::type_invariant]
    spec fn only_defined_bits(self) -> bool {
        self.bits & !0x1u32 == 0
    }

    /// The set of no flags.
    pub fn empty() -> (r: Behavior)
        ensures
            r@ == 0,
    {
        assert(0u32 & !0x1u32 == 0) by (bit_vector);
        Behavior { bits: 0 }
    }

    /// The set of all defined flags.
    pub fn all() -> (r: Behavior)
        ensures
            r@ == Behavior::all_bits(),
    {
        assert(0x1u32 & !0x1u32 == 0) by (bit_vector);
        Behavior { bits: 0x1u32 }
    }

    /// The raw bits of this set of flags; they never include an undefined flag.
    pub fn bits(&self) -> (r: u32)
        ensures
            r == self@,
            r & !Behavior::all_bits() == 0,
    {
        proof {
            use_type_invariant(self);
        }
        self.bits
    }

    /// Interprets raw bits as flags, or `None` if any bit is not a defined flag.
    pub fn from_bits(bits: u32) -> (r: Option<Behavior>)
        ensures
            r is Some <==> bits & !Behavior::all_bits() == 0,
            r matches Some(f) ==> f@ == bits,
    {
        if bits & !0x1u32 == 0 {
            Some(Behavior { bits })
        } else {
            None
        }
    }

    /// Interprets raw bits as flags, dropping every bit that is not a defined flag.
    pub fn from_bits_truncate(bits: u32) -> (r: Behavior)
        ensures
            r@ == bits & Behavior::all_bits(),
    {
        assert((bits & 0x1u32) & !0x1u32 == 0) by (bit_vector);
        Behavior { bits: bits & 0x1u32 }
    }

    /// Whether every flag of `other` is also in `self`.
    pub fn contains(&self, other: Behavior) -> (r: bool)
        ensures
            r == (self@ & other@ == other@),
    {
        self.bits & other.bits == other.bits
    }

    /// Whether `self` and `other` have a flag in common.
    pub fn intersects(&self, other: Behavior) -> (r: bool)
        ensures
            r == (self@ & other@ != 0),
    {
        self.bits & other.bits != 0
    }

    /// The flags that are in `self` or in `other`.
    pub fn union(self, other: Behavior) -> (r: Behavior)
        ensures
            r@ == self@ | other@,
    {
        proof {
            use_type_invariant(&self);
            use_type_invariant(&other);
            let (a, b) = (self.bits, other.bits);
            assert(a & !0x1u32 == 0 && b & !0x1u32 == 0 ==> (a | b) & !0x1u32 == 0)
                by (bit_vector);
        }
        Behavior { bits: self.bits | other.bits }
    }

}

/// Truncating raw bits yields flags that the strict interpretation accepts, and
/// on bits that it accepts the two interpretations agree.
pub proof fn lemma_behavior_truncate_agrees_with_strict(bits: u32)
    ensures
        (bits & Behavior::all_bits()) & !Behavior::all_bits() == 0,
        bits & !Behavior::all_bits() == 0 ==> bits & Behavior::all_bits() == bits,
{
    assert((bits & 0x1u32) & !0x1u32 == 0) by (bit_vector);
    assert(bits & !0x1u32 == 0 ==> bits & 0x1u32 == bits) by (bit_vector);
}

/// Flags that can be passed when initializing NVML.
///
/// The defined flag is `NVML_INIT_FLAG_NO_GPUS` of `crate::bindings`: do not
/// fail if the system has no NVIDIA GPUs.
#[derive(Debug, Clone, Copy, PartialEq, Eq, Hash)]
pub struct InitFlags {
    bits: u32,
}

impl View for InitFlags {
    type V = u32;

    closed spec fn view(&self) -> u32 {
        self.bits
    }
}

impl InitFlags {
    /// The bits of all flags that this type defines: no GPUs.
    pub open spec fn all_bits() -> u32 {
        0x1u32
    }

    /// Every value holds only bits of defined flags.
    #[verifier::type_invariant]
    spec fn only_defined_bits(self) -> bool {
        self.bits & !0x1u32 == 0
    }

    /// The set of no flags.
    pub fn empty() -> (r: InitFlags)
        ensures
            r@ == 0,
    {
        assert(0u32 & !0x1u32 == 0) by (bit_vector);
        InitFlags { bits: 0 }
    }

    /// The set of all defined flags.
    pub fn all() -> (r: InitFlags)
        ensures
            r@ == InitFlags::all_bits(),
    {
        assert(0x1u32 & !0x1u32 == 0) by (bit_vector);
        InitFlags { bits: 0x1u32 }
    }

    /// The raw bits of this set of flags; they never include an undefined flag.
    pub fn bits(&self) -> (r: u32)
        ensures
            r == self@,
            r & !InitFlags::all_bits() == 0,
    {
        proof {
            use_type_invariant(self);
        }
        self.bits
    }

    /// Interprets raw bits as flags, or `None` if any bit is not a defined flag.
    pub fn from_bits(bits: u32) -> (r: Option<InitFlags>)
        ensures
            r is Some <==> bits & !InitFlags::all_bits() == 0,
            r matches Some(f) ==> f@ == bits,
    {
        if bits & !0x1u32 == 0 {
            Some(InitFlags { bits })
        } else {
            None
        }
    }

    /// Interprets raw bits as flags, dropping every bit that is not a defined flag.
    pub fn from_bits_truncate(bits: u32) -> (r: InitFlags)
        ensures
            r@ == bits & InitFlags::all_bits(),
    {
        assert((bits & 0x1u32) & !0x1u32 == 0) by (bit_vector);
        InitFlags { bits: bits & 0x1u32 }
    }

    /// Whether every flag of `other` is also in `self`.
    pub fn contains(&self, other: InitFlags) -> (r: bool)
        ensures
            r == (self@ & other@ == other@),
    {
        self.bits & other.bits == other.bits
    }

    /// Whether `self` and `other` have a flag in common.
    pub fn intersects(&self, other: InitFlags) -> (r: bool)
        ensures
            r == (self@ & other@ != 0),
    {
        self.bits & other.bits != 0
    }

    /// The flags that are in `self` or in `other`.
    pub fn union(self, other: InitFlags) -> (r: InitFlags)
        ensures
            r@ == self@ | other@,
    {
        proof {
            use_type_invariant(&self);
            use_type_invariant(&other);
            let (a, b) = (self.bits, other.bits);
            assert(a & !0x1u32 == 0 && b & !0x1u32 == 0 ==> (a | b) & !0x1u32 == 0)
                by (bit_vector);
        }
        InitFlags { bits: self.bits | other.bits }
    }

}

/// Truncating raw bits yields flags that the strict interpretation accepts, and
/// on bits that it accepts the two interpretations agree.
pub proof fn lemma_initflags_truncate_agrees_with_strict(bits: u32)
    ensures
        (bits & InitFlags::all_bits()) & !InitFlags::all_bits() == 0,
        bits & !InitFlags::all_bits() == 0 ==> bits & InitFlags::all_bits() == bits,
{
    assert((bits & 0x1u32) & !0x1u32 == 0) by (bit_vector);
    assert(bits & !0x1u32 == 0 ==> bits & 0x1u32 == bits) by (bit_vector);
}

} // verus!
