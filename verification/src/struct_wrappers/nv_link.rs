//! Structures that NvLink calls take and return.
use vstd::prelude::*;

use crate::bitmasks::nv_link::PacketTypes;
use crate::enum_wrappers::nv_link::UtilizationCountUnit;
use crate::enum_wrappers::CEnumMapping;
use crate::error::NvmlError;

verus! {

/// The contents of an `nvmlNvLinkUtilizationControl_t`.
#[derive(Debug, Clone, Copy, PartialEq, Eq, Hash)]
pub struct RawUtilizationControl {
    /// The `nvmlNvLinkUtilizationCountUnits_t` value.
    pub units: u32,
    /// The packet filter bit mask.
    pub pktfilter: u32,
}

/// Defines NvLink counter controls.
#[derive(Debug, Clone, Copy, PartialEq, Eq, Hash)]
pub struct UtilizationControl {
    pub units: UtilizationCountUnit,
    pub packet_filter: PacketTypes,
}

impl UtilizationControl {
    /// Builds a `UtilizationControl` from the corresponding C structure.
    ///
    /// The `packet_filter` bit mask is built with `PacketTypes::from_bits_truncate`:
    /// bits that don't correspond to flags defined here are dropped.
    ///
    /// # Errors
    ///
    /// * `UnexpectedVariant`, if the units are not known units
    pub fn try_from(struct_: RawUtilizationControl) -> (r: Result<UtilizationControl, NvmlError>)
        ensures
            match r {
                Ok(c) => UtilizationCountUnit::from_c(struct_.units) == Some(c.units)
                    && c.packet_filter@ == struct_.pktfilter & PacketTypes::all_bits(),
                Err(e) => UtilizationCountUnit::from_c(struct_.units) is None && e
                    == NvmlError::UnexpectedVariant(struct_.units),
            },
    {
        let units = UtilizationCountUnit::try_from(struct_.units)?;
        Ok(UtilizationControl { units, packet_filter: PacketTypes::from_bits_truncate(struct_.pktfilter) })
    }

    /// Obtains this structure's C counterpart.
    pub fn as_c(&self) -> (r: RawUtilizationControl)
        ensures
            r.units == self.units.c_value(),
            r.pktfilter == self.packet_filter@,
            r.pktfilter & !PacketTypes::all_bits() == 0,
    {
        RawUtilizationControl { units: self.units.as_c(), pktfilter: self.packet_filter.bits() }
    }
}

/// Converting a `UtilizationControl` to its C counterpart and back gives the
/// same units and packet filter.
pub proof fn lemma_utilization_control_c_round_trip(
    control: UtilizationControl,
    raw: RawUtilizationControl,
)
    requires
        raw.units == control.units.c_value(),
        raw.pktfilter == control.packet_filter@,
        raw.pktfilter & !PacketTypes::all_bits() == 0,
    ensures
        UtilizationCountUnit::from_c(raw.units) == Some(control.units),
        raw.pktfilter & PacketTypes::all_bits() == control.packet_filter@,
{
    control.units.lemma_c_round_trip(raw.units);
    crate::bitmasks::nv_link::lemma_packettypes_truncate_agrees_with_strict(raw.pktfilter);
}

} // verus!
