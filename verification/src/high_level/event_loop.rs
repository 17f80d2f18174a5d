//! The decisions of an event loop: which `Event` an event stands for, and what
//! the loop does with the outcome of each wait.
use vstd::prelude::*;

use crate::bindings::{
    NVML_EVENT_TYPE_CLOCK,
    NVML_EVENT_TYPE_DOUBLE_BIT_ECC_ERROR,
    NVML_EVENT_TYPE_PSTATE,
    NVML_EVENT_TYPE_SINGLE_BIT_ECC_ERROR,
    NVML_EVENT_TYPE_XID_CRITICAL_ERROR,
};
use crate::bitmasks::event::EventTypes;
use crate::enums::event::XidError;
use crate::error::NvmlError;
use crate::struct_wrappers::event::{EventData, RawEventData};

verus! {

/// The event types that an event loop gathers, each with the device (held as
/// `D`) where it occurred.
#[derive(Debug, Clone, Copy, PartialEq, Eq, Hash)]
pub enum Event<D> {
    ClockChange(D),
    CriticalXidError(D, XidError),
    DoubleBitEccError(D),
    PowerStateChange(D),
    SingleBitEccError(D),
    /// None of the above event types are contained in the event data.
    Unknown,
}

/// Whether the flag `flag` is set in the bit mask `bits`.
pub open spec fn has_flag(bits: u64, flag: u64) -> bool {
    bits & flag == flag
}

impl<D> Event<D> {
    /// The event that event data stands for: the first of clock change,
    /// critical XID error, double bit ECC error, power state change and single
    /// bit ECC error whose flag is set.
    pub open spec fn of_data(data: EventData<D>) -> Event<D> {
        let t = data.event_type@;
        if has_flag(t, NVML_EVENT_TYPE_CLOCK) {
            Event::ClockChange(data.device)
        } else if has_flag(t, NVML_EVENT_TYPE_XID_CRITICAL_ERROR) {
            Event::CriticalXidError(data.device, data.event_data.unwrap())
        } else if has_flag(t, NVML_EVENT_TYPE_DOUBLE_BIT_ECC_ERROR) {
            Event::DoubleBitEccError(data.device)
        } else if has_flag(t, NVML_EVENT_TYPE_PSTATE) {
            Event::PowerStateChange(data.device)
        } else if has_flag(t, NVML_EVENT_TYPE_SINGLE_BIT_ECC_ERROR) {
            Event::SingleBitEccError(data.device)
        } else {
            Event::Unknown
        }
    }

    /// Converts event data into the event it stands for.
    pub fn from(data: EventData<D>) -> (r: Event<D>)
        requires
            has_flag(data.event_type@, NVML_EVENT_TYPE_XID_CRITICAL_ERROR) ==> data.event_data
                is Some,
        ensures
            r == Event::of_data(data),
    {
        let t = data.event_type.bits();
        if t & NVML_EVENT_TYPE_CLOCK == NVML_EVENT_TYPE_CLOCK {
            Event::ClockChange(data.device)
        } else if t & NVML_EVENT_TYPE_XID_CRITICAL_ERROR == NVML_EVENT_TYPE_XID_CRITICAL_ERROR {
            match data.event_data {
                Some(xid) => Event::CriticalXidError(data.device, xid),
                None => Event::Unknown,
            }
        } else if t & NVML_EVENT_TYPE_DOUBLE_BIT_ECC_ERROR == NVML_EVENT_TYPE_DOUBLE_BIT_ECC_ERROR {
            Event::DoubleBitEccError(data.device)
        } else if t & NVML_EVENT_TYPE_PSTATE == NVML_EVENT_TYPE_PSTATE {
            Event::PowerStateChange(data.device)
        } else if t & NVML_EVENT_TYPE_SINGLE_BIT_ECC_ERROR == NVML_EVENT_TYPE_SINGLE_BIT_ECC_ERROR {
            Event::SingleBitEccError(data.device)
        } else {
            Event::Unknown
        }
    }
}

/// Keeps track of whether an event loop is interrupted or not.
#[derive(Debug, Clone, Copy, PartialEq, Eq, Hash)]
pub struct EventLoopState {
    interrupted: bool,
}

impl View for EventLoopState {
    type V = bool;

    /// Whether the loop is interrupted.
    closed spec fn view(&self) -> bool {
        self.interrupted
    }
}

impl EventLoopState {
    /// The state in which a loop starts: not interrupted.
    pub fn new() -> (r: EventLoopState)
        ensures
            !r@,
    {
        EventLoopState { interrupted: false }
    }

    /// Call this to mark the loop as interrupted.
    pub fn interrupt(&mut self)
        ensures
            final(self)@,
    {
        self.interrupted = true;
    }

    /// Whether the loop has been interrupted and stops before its next wait.
    pub fn is_interrupted(&self) -> (r: bool)
        ensures
            r == self@,
    {
        self.interrupted
    }
}

/// What the loop hands to its callback for the outcome of one wait, or `None`
/// when it waits again without calling back.
pub open spec fn delivery_for<D>(outcome: Result<EventData<D>, NvmlError>) -> Option<
    Result<Event<D>, NvmlError>,
> {
    match outcome {
        Ok(data) => Some(Ok(Event::of_data(data))),
        Err(NvmlError::Timeout) => None,
        Err(e) => Some(Err(e)),
    }
}

/// Decides what an event loop does with the outcome of one wait: an event is
/// converted and handed to the callback, a timeout is passed over silently, and
/// any other error is handed to the callback.
pub fn delivery<D>(outcome: Result<EventData<D>, NvmlError>) -> (r: Option<Result<Event<D>, NvmlError>>)
    requires
        outcome matches Ok(data) ==> (has_flag(data.event_type@, NVML_EVENT_TYPE_XID_CRITICAL_ERROR)
            ==> data.event_data is Some),
    ensures
        r == delivery_for(outcome),
{
    match outcome {
        Ok(data) => Some(Ok(Event::from(data))),
        Err(NvmlError::Timeout) => None,
        Err(e) => Some(Err(e)),
    }
}

/// How long, in milliseconds, an event loop waits for an event at a time.
pub const EVENT_WAIT_TIMEOUT_MS: u32 = 1;

/// What has just happened in an event loop.
#[derive(Debug, PartialEq, Eq)]
pub enum LoopEvent<D> {
    /// The loop has started.
    Started,
    /// A wait has ended with the given C event data, or with an error
    /// (`Timeout` when no event came).
    Waited(Result<RawEventData<D>, NvmlError>),
    /// The callback has returned.
    CalledBack,
}

/// What an event loop does next.
#[derive(Debug, PartialEq, Eq)]
pub enum LoopAction<D> {
    /// Wait for an event for the given number of milliseconds.
    Wait(u32),
    /// Hand the event or error to the callback, together with the loop's state.
    Call(Result<Event<D>, NvmlError>),
    /// Return: the loop is over.
    Stop,
}

/// The outcome of a wait with its event data converted from the C structure.
pub open spec fn converted_outcome<D>(outcome: Result<RawEventData<D>, NvmlError>) -> Result<
    EventData<D>,
    NvmlError,
> {
    match outcome {
        Ok(raw) => Ok(choose|data: EventData<D>| data.is_converted_from(raw)),
        Err(e) => Err(e),
    }
}

/// Whether a loop in state `interrupted` goes on waiting or stops.
pub open spec fn wait_or_stop<D>(interrupted: bool) -> LoopAction<D> {
    if interrupted {
        LoopAction::Stop
    } else {
        LoopAction::Wait(EVENT_WAIT_TIMEOUT_MS)
    }
}

/// What an event loop whose state is `interrupted` does after `event`: after
/// it starts, and after each callback, it stops if it is interrupted and
/// otherwise waits for a millisecond; after a wait, it hands the callback the
/// converted event or the error, unless the wait timed out, in which case it
/// goes on as after a callback.
pub open spec fn next_action_for<D>(interrupted: bool, event: LoopEvent<D>) -> LoopAction<D> {
    match event {
        LoopEvent::Waited(outcome) => match delivery_for(converted_outcome(outcome)) {
            Some(delivered) => LoopAction::Call(delivered),
            None => wait_or_stop(interrupted),
        },
        _ => wait_or_stop(interrupted),
    }
}

/// Decides what an event loop does next.
pub fn next_action<D>(state: &EventLoopState, event: LoopEvent<D>) -> (r: LoopAction<D>)
    ensures
        r == next_action_for(state@, event),
{
    match event {
        LoopEvent::Waited(outcome) => {
            let converted = match outcome {
                Ok(raw) => {
                    let data = EventData::from(raw);
                    proof {
                        lemma_converted_data_is_deliverable(raw, data);
                        lemma_conversion_is_unique(raw, data);
                    }
                    Ok(data)
                },
                Err(e) => Err(e),
            };
            match delivery(converted) {
                Some(delivered) => LoopAction::Call(delivered),
                None => if state.is_interrupted() {
                    LoopAction::Stop
                } else {
                    LoopAction::Wait(EVENT_WAIT_TIMEOUT_MS)
                },
            }
        },
        _ => if state.is_interrupted() {
            LoopAction::Stop
        } else {
            LoopAction::Wait(EVENT_WAIT_TIMEOUT_MS)
        },
    }
}

/// Converted event data is determined by its C structure.
proof fn lemma_conversion_is_unique<D>(raw: RawEventData<D>, data: EventData<D>)
    requires
        data.is_converted_from(raw),
    ensures
        (choose|d: EventData<D>| d.is_converted_from(raw)) == data,
{
    let other = choose|d: EventData<D>| d.is_converted_from(raw);
    assert(other.is_converted_from(raw));
    EventTypes::lemma_view_injective(other.event_type, data.event_type);
}

/// An event loop never hands its callback a timeout: a wait that timed out is
/// followed by another wait, or by stopping.
pub proof fn lemma_loop_never_calls_back_with_timeout<D>(interrupted: bool, event: LoopEvent<D>)
    ensures
        next_action_for(interrupted, event) != LoopAction::<D>::Call(Err(NvmlError::Timeout)),
        event == LoopEvent::<D>::Waited(Err(NvmlError::Timeout)) ==> next_action_for(
            interrupted,
            event,
        ) == wait_or_stop::<D>(interrupted),
{
}

/// An event loop stops exactly when its state is interrupted at a point where
/// it would otherwise wait: it never stops while not interrupted (errors
/// included), and once the callback has interrupted it, it makes no further
/// call and stops right after the callback returns.
pub proof fn lemma_loop_stops_only_when_interrupted<D>(interrupted: bool, event: LoopEvent<D>)
    ensures
        next_action_for(interrupted, event) == LoopAction::<D>::Stop ==> interrupted,
        interrupted && event == LoopEvent::<D>::CalledBack ==> next_action_for(interrupted, event)
            == LoopAction::<D>::Stop,
        !interrupted ==> next_action_for(interrupted, event) != LoopAction::<D>::Stop,
{
}

/// Event data converted from its C structure can always be turned into an
/// `Event` and handed over by the loop: when its critical XID error flag is set,
/// the XID error is present.
pub proof fn lemma_converted_data_is_deliverable<D>(raw: RawEventData<D>, data: EventData<D>)
    requires
        data.is_converted_from(raw),
    ensures
        has_flag(data.event_type@, NVML_EVENT_TYPE_XID_CRITICAL_ERROR) ==> data.event_data is Some,
        delivery_for(Ok::<EventData<D>, NvmlError>(data)) == Some(
            Ok::<Event<D>, NvmlError>(Event::of_data(data)),
        ),
{
    let b = raw.event_type;
    assert((b & 0x1fu64) & 0x8u64 == 0x8u64 ==> b & 0x8u64 == 0x8u64) by (bit_vector);
}

/// The event that event data stands for, by NVML's event type bits: clock
/// change (0x10) first, then critical XID error (0x8), double bit ECC error
/// (0x2), power state change (0x4), single bit ECC error (0x1), else unknown.
pub proof fn lemma_event_of_data_bits<D>(data: EventData<D>)
    ensures
        ({
            let t = data.event_type@;
            Event::of_data(data) == if t & 0x10u64 == 0x10u64 {
                Event::ClockChange(data.device)
            } else if t & 0x8u64 == 0x8u64 {
                Event::CriticalXidError(data.device, data.event_data.unwrap())
            } else if t & 0x2u64 == 0x2u64 {
                Event::DoubleBitEccError(data.device)
            } else if t & 0x4u64 == 0x4u64 {
                Event::PowerStateChange(data.device)
            } else if t & 0x1u64 == 0x1u64 {
                Event::SingleBitEccError(data.device)
            } else {
                Event::Unknown
            }
        }),
{
}

} // verus!
