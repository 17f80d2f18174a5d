//! Structures that event calls return.
use vstd::prelude::*;

use crate::bindings::{NVML_EVENT_TYPE_XID_CRITICAL_ERROR, NVML_XID_UNKNOWN};
use crate::bitmasks::event::EventTypes;
use crate::enums::event::XidError;

verus! {

/// The contents of an `nvmlEventData_t`, with the device handle held as `D`.
#[derive(Debug, Clone, Copy, PartialEq, Eq, Hash)]
pub struct RawEventData<D> {
    pub device: D,
    /// The `eventType` bit mask.
    pub event_type: u64,
    /// The `eventData` value (the XID error of a critical XID error event).
    pub event_data: u64,
}

/// Information about an event that has occurred.
#[derive(Debug, Clone, Copy, PartialEq, Eq, Hash)]
pub struct EventData<D> {
    /// Device where the event occurred.
    pub device: D,
    /// Information about what specific event occurred.
    pub event_type: EventTypes,
    /// The last XID error for the device for a critical XID error event;
    /// `None` in the case of any other event type.
    pub event_data: Option<XidError>,
}

/// The XID error that the event data of a critical XID error event stands for.
pub open spec fn xid_error_of(event_data: u64) -> XidError {
    if event_data == NVML_XID_UNKNOWN {
        XidError::Unknown
    } else {
        XidError::Value(event_data)
    }
}

impl<D> EventData<D> {
    /// Whether this is what converting `struct_` gives: the event types are
    /// truncated to the defined flags, and an XID error is present exactly when
    /// the critical XID error flag is set.
    pub open spec fn is_converted_from(self, struct_: RawEventData<D>) -> bool {
        &&& self.device == struct_.device
        &&& self.event_type@ == struct_.event_type & EventTypes::all_bits()
        &&& self.event_data == (if struct_.event_type & NVML_EVENT_TYPE_XID_CRITICAL_ERROR
            == NVML_EVENT_TYPE_XID_CRITICAL_ERROR {
            Some(xid_error_of(struct_.event_data))
        } else {
            None
        })
    }

    /// Builds `EventData` from the corresponding C structure.
    ///
    /// The `event_type` bit mask is built with `EventTypes::from_bits_truncate`:
    /// bits that don't correspond to flags defined here are dropped.
    pub fn from(struct_: RawEventData<D>) -> (r: EventData<D>)
        ensures
            r.is_converted_from(struct_),
    {
        let event_type = EventTypes::from_bits_truncate(struct_.event_type);
        let is_xid = event_type.bits() & NVML_EVENT_TYPE_XID_CRITICAL_ERROR
            == NVML_EVENT_TYPE_XID_CRITICAL_ERROR;
        proof {
            let b = struct_.event_type;
            assert((b & 0x1fu64) & 0x8u64 == 0x8u64 <==> b & 0x8u64 == 0x8u64) by (bit_vector);
        }
        EventData {
            device: struct_.device,
            event_type,
            event_data: if is_xid {
                Some(
                    if struct_.event_data == NVML_XID_UNKNOWN {
                        XidError::Unknown
                    } else {
                        XidError::Value(struct_.event_data)
                    },
                )
            } else {
                None
            },
        }
    }
}

/// An XID error of 999 (NVML's unknown XID) is `Unknown`; any other value is
/// that XID error. Converted event data holds an XID error exactly when bit
/// 0x8 (critical XID error) of the event type is set, and keeps only the five
/// event type bits 0x1f.
pub proof fn lemma_event_data_values<D>(raw: RawEventData<D>, data: EventData<D>, x: u64)
    requires
        data.is_converted_from(raw),
    ensures
        xid_error_of(999u64) == XidError::Unknown,
        x != 999u64 ==> xid_error_of(x) == XidError::Value(x),
        data.event_data is Some <==> raw.event_type & 0x8u64 == 0x8u64,
        data.event_data is Some ==> data.event_data == Some(xid_error_of(raw.event_data)),
        data.event_type@ == raw.event_type & 0x1fu64,
{
}

} // verus!
