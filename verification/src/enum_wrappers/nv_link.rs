//! Wrappers for the C enumerations that NvLink calls take and return.
use vstd::prelude::*;

use crate::bindings::{
    NVML_NVLINK_COUNTER_PKTFILTER_ALL,
    NVML_NVLINK_COUNTER_PKTFILTER_FLUSH,
    NVML_NVLINK_COUNTER_PKTFILTER_NOP,
    NVML_NVLINK_COUNTER_PKTFILTER_NRATOM,
    NVML_NVLINK_COUNTER_PKTFILTER_RATOM,
    NVML_NVLINK_COUNTER_PKTFILTER_READ,
    NVML_NVLINK_COUNTER_PKTFILTER_RESPDATA,
    NVML_NVLINK_COUNTER_PKTFILTER_RESPNODATA,
    NVML_NVLINK_COUNTER_PKTFILTER_WRITE,
    NVML_NVLINK_COUNTER_UNIT_BYTES,
    NVML_NVLINK_COUNTER_UNIT_CYCLES,
    NVML_NVLINK_COUNTER_UNIT_PACKETS,
};
use crate::enum_wrappers::{from_c_result, CEnumMapping};
use crate::error::NvmlError;

verus! {

/// Represents the NvLink utilization counter packet units.
#[derive(Debug, Clone, Copy, PartialEq, Eq, Hash)]
pub enum UtilizationCountUnit {
    Cycles,
    Packets,
    Bytes,
}

impl CEnumMapping for UtilizationCountUnit {
    open spec fn c_value(self) -> u32 {
        match self {
            UtilizationCountUnit::Cycles => NVML_NVLINK_COUNTER_UNIT_CYCLES,
            UtilizationCountUnit::Packets => NVML_NVLINK_COUNTER_UNIT_PACKETS,
            UtilizationCountUnit::Bytes => NVML_NVLINK_COUNTER_UNIT_BYTES,
        }
    }

    open spec fn from_c(value: u32) -> Option<UtilizationCountUnit> {
        if value == NVML_NVLINK_COUNTER_UNIT_CYCLES {
            Some(UtilizationCountUnit::Cycles)
        } else if value == NVML_NVLINK_COUNTER_UNIT_PACKETS {
            Some(UtilizationCountUnit::Packets)
        } else if value == NVML_NVLINK_COUNTER_UNIT_BYTES {
            Some(UtilizationCountUnit::Bytes)
        } else {
            None
        }
    }

    proof fn lemma_c_round_trip(self, value: u32) {
    }
}

impl UtilizationCountUnit {
    /// Returns the C constant equivalent for this variant.
    pub fn as_c(&self) -> (c: u32)
        ensures
            c == self.c_value(),
    {
        match self {
            UtilizationCountUnit::Cycles => NVML_NVLINK_COUNTER_UNIT_CYCLES,
            UtilizationCountUnit::Packets => NVML_NVLINK_COUNTER_UNIT_PACKETS,
            UtilizationCountUnit::Bytes => NVML_NVLINK_COUNTER_UNIT_BYTES,
        }
    }

    /// Converts a C value into the variant that it stands for.
    ///
    /// # Errors
    ///
    /// * `UnexpectedVariant`, if no variant stands for `value`
    pub fn try_from(value: u32) -> (r: Result<UtilizationCountUnit, NvmlError>)
        ensures
            r == from_c_result(UtilizationCountUnit::from_c(value), value),
    {
        if value == NVML_NVLINK_COUNTER_UNIT_CYCLES {
            Ok(UtilizationCountUnit::Cycles)
        } else if value == NVML_NVLINK_COUNTER_UNIT_PACKETS {
            Ok(UtilizationCountUnit::Packets)
        } else if value == NVML_NVLINK_COUNTER_UNIT_BYTES {
            Ok(UtilizationCountUnit::Bytes)
        } else {
            Err(NvmlError::UnexpectedVariant(value))
        }
    }
}

/// Represents the NvLink utilization counter packet types that can be counted,
/// one filter at a time.
#[derive(Debug, Clone, Copy, PartialEq, Eq, Hash)]
pub enum UtilizationCountPacketTypes {
    NoOp,
    Read,
    Write,
    Ratom,
    NRatom,
    Flush,
    WithData,
    NoData,
    All,
}

impl CEnumMapping for UtilizationCountPacketTypes {
    open spec fn c_value(self) -> u32 {
        match self {
            UtilizationCountPacketTypes::NoOp => NVML_NVLINK_COUNTER_PKTFILTER_NOP,
            UtilizationCountPacketTypes::Read => NVML_NVLINK_COUNTER_PKTFILTER_READ,
            UtilizationCountPacketTypes::Write => NVML_NVLINK_COUNTER_PKTFILTER_WRITE,
            UtilizationCountPacketTypes::Ratom => NVML_NVLINK_COUNTER_PKTFILTER_RATOM,
            UtilizationCountPacketTypes::NRatom => NVML_NVLINK_COUNTER_PKTFILTER_NRATOM,
            UtilizationCountPacketTypes::Flush => NVML_NVLINK_COUNTER_PKTFILTER_FLUSH,
            UtilizationCountPacketTypes::WithData => NVML_NVLINK_COUNTER_PKTFILTER_RESPDATA,
            UtilizationCountPacketTypes::NoData => NVML_NVLINK_COUNTER_PKTFILTER_RESPNODATA,
            UtilizationCountPacketTypes::All => NVML_NVLINK_COUNTER_PKTFILTER_ALL,
        }
    }

    open spec fn from_c(value: u32) -> Option<UtilizationCountPacketTypes> {
        if value == NVML_NVLINK_COUNTER_PKTFILTER_NOP {
            Some(UtilizationCountPacketTypes::NoOp)
        } else if value == NVML_NVLINK_COUNTER_PKTFILTER_READ {
            Some(UtilizationCountPacketTypes::Read)
        } else if value == NVML_NVLINK_COUNTER_PKTFILTER_WRITE {
            Some(UtilizationCountPacketTypes::Write)
        } else if value == NVML_NVLINK_COUNTER_PKTFILTER_RATOM {
            Some(UtilizationCountPacketTypes::Ratom)
        } else if value == NVML_NVLINK_COUNTER_PKTFILTER_NRATOM {
            Some(UtilizationCountPacketTypes::NRatom)
        } else if value == NVML_NVLINK_COUNTER_PKTFILTER_FLUSH {
            Some(UtilizationCountPacketTypes::Flush)
        } else if value == NVML_NVLINK_COUNTER_PKTFILTER_RESPDATA {
            Some(UtilizationCountPacketTypes::WithData)
        } else if value == NVML_NVLINK_COUNTER_PKTFILTER_RESPNODATA {
            Some(UtilizationCountPacketTypes::NoData)
        } else if value == NVML_NVLINK_COUNTER_PKTFILTER_ALL {
            Some(UtilizationCountPacketTypes::All)
        } else {
            None
        }
    }

    proof fn lemma_c_round_trip(self, value: u32) {
    }
}

impl UtilizationCountPacketTypes {
    /// Returns the C constant equivalent for this variant.
    pub fn as_c(&self) -> (c: u32)
        ensures
            c == self.c_value(),
    {
        match self {
            UtilizationCountPacketTypes::NoOp => NVML_NVLINK_COUNTER_PKTFILTER_NOP,
            UtilizationCountPacketTypes::Read => NVML_NVLINK_COUNTER_PKTFILTER_READ,
            UtilizationCountPacketTypes::Write => NVML_NVLINK_COUNTER_PKTFILTER_WRITE,
            UtilizationCountPacketTypes::Ratom => NVML_NVLINK_COUNTER_PKTFILTER_RATOM,
            UtilizationCountPacketTypes::NRatom => NVML_NVLINK_COUNTER_PKTFILTER_NRATOM,
            UtilizationCountPacketTypes::Flush => NVML_NVLINK_COUNTER_PKTFILTER_FLUSH,
            UtilizationCountPacketTypes::WithData => NVML_NVLINK_COUNTER_PKTFILTER_RESPDATA,
            UtilizationCountPacketTypes::NoData => NVML_NVLINK_COUNTER_PKTFILTER_RESPNODATA,
            UtilizationCountPacketTypes::All => NVML_NVLINK_COUNTER_PKTFILTER_ALL,
        }
    }

    /// Converts a C value into the variant that it stands for.
    ///
    /// # Errors
    ///
    /// * `UnexpectedVariant`, if no variant stands for `value`
    pub fn try_from(value: u32) -> (r: Result<UtilizationCountPacketTypes, NvmlError>)
        ensures
            r == from_c_result(UtilizationCountPacketTypes::from_c(value), value),
    {
        if value == NVML_NVLINK_COUNTER_PKTFILTER_NOP {
            Ok(UtilizationCountPacketTypes::NoOp)
        } else if value == NVML_NVLINK_COUNTER_PKTFILTER_READ {
            Ok(UtilizationCountPacketTypes::Read)
        } else if value == NVML_NVLINK_COUNTER_PKTFILTER_WRITE {
            Ok(UtilizationCountPacketTypes::Write)
        } else if value == NVML_NVLINK_COUNTER_PKTFILTER_RATOM {
            Ok(UtilizationCountPacketTypes::Ratom)
        } else if value == NVML_NVLINK_COUNTER_PKTFILTER_NRATOM {
            Ok(UtilizationCountPacketTypes::NRatom)
        } else if value == NVML_NVLINK_COUNTER_PKTFILTER_FLUSH {
            Ok(UtilizationCountPacketTypes::Flush)
        } else if value == NVML_NVLINK_COUNTER_PKTFILTER_RESPDATA {
            Ok(UtilizationCountPacketTypes::WithData)
        } else if value == NVML_NVLINK_COUNTER_PKTFILTER_RESPNODATA {
            Ok(UtilizationCountPacketTypes::NoData)
        } else if value == NVML_NVLINK_COUNTER_PKTFILTER_ALL {
            Ok(UtilizationCountPacketTypes::All)
        } else {
            Err(NvmlError::UnexpectedVariant(value))
        }
    }
}

/// Another name for `UtilizationCountUnit`.
pub type UtilizationCountUnits = UtilizationCountUnit;

/// The C values of `UtilizationCountUnit` are those of NVML's `nvmlNvLinkUtilizationCountUnits_t`: Cycles 0, Packets 1, Bytes 2;
/// each converts back to its variant, and no other value stands for one.
pub proof fn lemma_utilization_count_unit_c_values()
    ensures
        UtilizationCountUnit::Cycles.c_value() == 0u32,
        UtilizationCountUnit::from_c(0u32) == Some(UtilizationCountUnit::Cycles),
        UtilizationCountUnit::Packets.c_value() == 1u32,
        UtilizationCountUnit::from_c(1u32) == Some(UtilizationCountUnit::Packets),
        UtilizationCountUnit::Bytes.c_value() == 2u32,
        UtilizationCountUnit::from_c(2u32) == Some(UtilizationCountUnit::Bytes),
        forall|v: u32| #[trigger] UtilizationCountUnit::from_c(v) is Some ==> (v == 0u32 || v == 1u32 || v == 2u32),
{
}

/// The C values of `UtilizationCountPacketTypes` are those of NVML's `nvmlNvLinkUtilizationCountPktTypes_t`: NoOp 0x1, Read 0x2, Write 0x4, Ratom 0x8, NRatom 0x10, Flush 0x20, WithData 0x40, NoData 0x80, All 0xff;
/// each converts back to its variant, and no other value stands for one.
pub proof fn lemma_utilization_count_packet_types_c_values()
    ensures
        UtilizationCountPacketTypes::NoOp.c_value() == 0x1u32,
        UtilizationCountPacketTypes::from_c(0x1u32) == Some(UtilizationCountPacketTypes::NoOp),
        UtilizationCountPacketTypes::Read.c_value() == 0x2u32,
        UtilizationCountPacketTypes::from_c(0x2u32) == Some(UtilizationCountPacketTypes::Read),
        UtilizationCountPacketTypes::Write.c_value() == 0x4u32,
        UtilizationCountPacketTypes::from_c(0x4u32) == Some(UtilizationCountPacketTypes::Write),
        UtilizationCountPacketTypes::Ratom.c_value() == 0x8u32,
        UtilizationCountPacketTypes::from_c(0x8u32) == Some(UtilizationCountPacketTypes::Ratom),
        UtilizationCountPacketTypes::NRatom.c_value() == 0x10u32,
        UtilizationCountPacketTypes::from_c(0x10u32) == Some(UtilizationCountPacketTypes::NRatom),
        UtilizationCountPacketTypes::Flush.c_value() == 0x20u32,
        UtilizationCountPacketTypes::from_c(0x20u32) == Some(UtilizationCountPacketTypes::Flush),
        UtilizationCountPacketTypes::WithData.c_value() == 0x40u32,
        UtilizationCountPacketTypes::from_c(0x40u32) == Some(UtilizationCountPacketTypes::WithData),
        UtilizationCountPacketTypes::NoData.c_value() == 0x80u32,
        UtilizationCountPacketTypes::from_c(0x80u32) == Some(UtilizationCountPacketTypes::NoData),
        UtilizationCountPacketTypes::All.c_value() == 0xffu32,
        UtilizationCountPacketTypes::from_c(0xffu32) == Some(UtilizationCountPacketTypes::All),
        forall|v: u32| #[trigger] UtilizationCountPacketTypes::from_c(v) is Some ==> (v == 0x1u32 || v == 0x2u32 || v == 0x4u32 || v == 0x8u32 || v == 0x10u32 || v == 0x20u32 || v == 0x40u32 || v == 0x80u32 || v == 0xffu32),
{
}

} // verus!
