//! Change notifications: the facilities that a controller can watch, and
//! the decoding of what the server reports of them.
use vstd::prelude::*;

verus! {

/// A part of the server whose changes can be watched.
#[derive(Clone, Copy, Debug, PartialEq, Eq, Structural)]
pub enum Facility {
    Sink,
    Source,
    SinkInput,
    SourceOutput,
    Module,
    Client,
    SampleCache,
    Server,
    Card,
}

/// What happened to the thing that an event is about.
#[derive(Clone, Copy, Debug, PartialEq, Eq, Structural)]
pub enum Operation {
    New,
    Changed,
    Removed,
}

/// One change notification.
#[derive(Clone, Copy, Debug, PartialEq, Eq, Structural)]
pub struct Event {
    pub facility: Facility,
    pub operation: Operation,
    pub index: u32,
}

/// The bits of an event code that name the facility.
pub const FACILITY_MASK: u32 = 0x0F;

/// The bits of an event code that name the operation.
pub const OPERATION_MASK: u32 = 0x30;

pub const MASK_NULL: u32 = 0x0;

pub const MASK_SINK: u32 = 0x1;

pub const MASK_SOURCE: u32 = 0x2;

pub const MASK_SINK_INPUT: u32 = 0x4;

pub const MASK_SOURCE_OUTPUT: u32 = 0x8;

pub const MASK_MODULE: u32 = 0x10;

pub const MASK_CLIENT: u32 = 0x20;

pub const MASK_SAMPLE_CACHE: u32 = 0x40;

pub const MASK_SERVER: u32 = 0x80;

pub const MASK_CARD: u32 = 0x200;

/// Every facility.
pub const MASK_ALL: u32 = 0x2FF;

/// The facilities that a controller watches: devices of both kinds, cards,
/// capture streams, clients and the server.
pub const MASK_WATCHED: u32 = 0x2AB;

/// The bit of the interest mask that stands for a facility.
pub open spec fn interest_bit(facility: Facility) -> u32 {
    match facility {
        Facility::Sink => MASK_SINK,
        Facility::Source => MASK_SOURCE,
        Facility::SinkInput => MASK_SINK_INPUT,
        Facility::SourceOutput => MASK_SOURCE_OUTPUT,
        Facility::Module => MASK_MODULE,
        Facility::Client => MASK_CLIENT,
        Facility::SampleCache => MASK_SAMPLE_CACHE,
        Facility::Server => MASK_SERVER,
        Facility::Card => MASK_CARD,
    }
}

/// The facility that an event code names.
pub open spec fn facility_of(code: u32) -> Option<Facility> {
    let f = code & FACILITY_MASK;
    if f == 0 {
        Some(Facility::Sink)
    } else if f == 1 {
        Some(Facility::Source)
    } else if f == 2 {
        Some(Facility::SinkInput)
    } else if f == 3 {
        Some(Facility::SourceOutput)
    } else if f == 4 {
        Some(Facility::Module)
    } else if f == 5 {
        Some(Facility::Client)
    } else if f == 6 {
        Some(Facility::SampleCache)
    } else if f == 7 {
        Some(Facility::Server)
    } else if f == 9 {
        Some(Facility::Card)
    } else {
        None
    }
}

/// The operation that an event code names.
pub open spec fn operation_of(code: u32) -> Option<Operation> {
    let o = code & OPERATION_MASK;
    if o == 0 {
        Some(Operation::New)
    } else if o == 0x10 {
        Some(Operation::Changed)
    } else if o == 0x20 {
        Some(Operation::Removed)
    } else {
        None
    }
}

/// The facility is among those of the mask.
pub open spec fn is_watched(mask: u32, facility: Facility) -> bool {
    mask & interest_bit(facility) != 0
}

/// The event that is handed on for a code and an index that the server
/// reports: none where the code names no facility or no operation, or a
/// facility that the mask leaves out.
pub open spec fn event_for(mask: u32, code: u32, index: u32) -> Option<Event> {
    match (facility_of(code), operation_of(code)) {
        (Some(facility), Some(operation)) => if is_watched(mask, facility) {
            Some(Event { facility, operation, index })
        } else {
            None
        },
        _ => None,
    }
}

/// The code under which the server reports an operation on a facility.
pub open spec fn code_of(facility: Facility, operation: Operation) -> u32 {
    let f: u32 = match facility {
        Facility::Sink => 0,
        Facility::Source => 1,
        Facility::SinkInput => 2,
        Facility::SourceOutput => 3,
        Facility::Module => 4,
        Facility::Client => 5,
        Facility::SampleCache => 6,
        Facility::Server => 7,
        Facility::Card => 9,
    };
    let o: u32 = match operation {
        Operation::New => 0,
        Operation::Changed => 0x10,
        Operation::Removed => 0x20,
    };
    (f + o) as u32
}

/// The bit of the interest mask that stands for `facility`.
pub fn to_interest_mask(facility: Facility) -> (bit: u32)
    ensures
        bit == interest_bit(facility),
{
    match facility {
        Facility::Sink => MASK_SINK,
        Facility::Source => MASK_SOURCE,
        Facility::SinkInput => MASK_SINK_INPUT,
        Facility::SourceOutput => MASK_SOURCE_OUTPUT,
        Facility::Module => MASK_MODULE,
        Facility::Client => MASK_CLIENT,
        Facility::SampleCache => MASK_SAMPLE_CACHE,
        Facility::Server => MASK_SERVER,
        Facility::Card => MASK_CARD,
    }
}

/// The facility that an event code names.
pub fn get_facility(code: u32) -> (facility: Option<Facility>)
    ensures
        facility == facility_of(code),
{
    let f: u32 = code & FACILITY_MASK;
    if f == 0 {
        Some(Facility::Sink)
    } else if f == 1 {
        Some(Facility::Source)
    } else if f == 2 {
        Some(Facility::SinkInput)
    } else if f == 3 {
        Some(Facility::SourceOutput)
    } else if f == 4 {
        Some(Facility::Module)
    } else if f == 5 {
        Some(Facility::Client)
    } else if f == 6 {
        Some(Facility::SampleCache)
    } else if f == 7 {
        Some(Facility::Server)
    } else if f == 9 {
        Some(Facility::Card)
    } else {
        None
    }
}

/// The operation that an event code names.
pub fn get_operation(code: u32) -> (operation: Option<Operation>)
    ensures
        operation == operation_of(code),
{
    let o: u32 = code & OPERATION_MASK;
    if o == 0 {
        Some(Operation::New)
    } else if o == 0x10 {
        Some(Operation::Changed)
    } else if o == 0x20 {
        Some(Operation::Removed)
    } else {
        None
    }
}

/// The event to hand on for what the server reports, under the interest
/// mask `mask`.
pub fn dispatch(mask: u32, code: u32, index: u32) -> (event: Option<Event>)
    ensures
        event == event_for(mask, code, index),
{
    match (get_facility(code), get_operation(code)) {
        (Some(facility), Some(operation)) => {
            if mask & to_interest_mask(facility) != 0 {
                Some(Event { facility, operation, index })
            } else {
                None
            }
        },
        _ => None,
    }
}

/// The code of an operation on a facility is decoded as that operation on
/// that facility.
pub proof fn lemma_code_round_trip(facility: Facility, operation: Operation)
    ensures
        facility_of(code_of(facility, operation)) == Some(facility),
        operation_of(code_of(facility, operation)) == Some(operation),
{
    let c = code_of(facility, operation);
    assert(c == 0 || c == 1 || c == 2 || c == 3 || c == 4 || c == 5 || c == 6 || c == 7 || c == 9
        || c == 0x10 || c == 0x11 || c == 0x12 || c == 0x13 || c == 0x14 || c == 0x15 || c == 0x16
        || c == 0x17 || c == 0x19 || c == 0x20 || c == 0x21 || c == 0x22 || c == 0x23 || c == 0x24
        || c == 0x25 || c == 0x26 || c == 0x27 || c == 0x29);
    assert(c < 0x30 ==> (c & 0x0F) as int == c % 16 && (c & 0x30) as int == c - c % 16)
        by (bit_vector);
}

/// Under the mask of every facility, each decodable report is handed on.
pub proof fn lemma_all_watched(facility: Facility)
    ensures
        is_watched(MASK_ALL, facility),
        is_watched(MASK_WATCHED, facility) <==> !(facility is SinkInput || facility is Module
            || facility is SampleCache),
{
    assert(0x2FFu32 & 0x1 != 0 && 0x2FFu32 & 0x2 != 0 && 0x2FFu32 & 0x4 != 0 && 0x2FFu32 & 0x8
        != 0 && 0x2FFu32 & 0x10 != 0 && 0x2FFu32 & 0x20 != 0 && 0x2FFu32 & 0x40 != 0 && 0x2FFu32
        & 0x80 != 0 && 0x2FFu32 & 0x200 != 0) by (bit_vector);
    assert(0x2ABu32 & 0x1 != 0 && 0x2ABu32 & 0x2 != 0 && 0x2ABu32 & 0x4 == 0 && 0x2ABu32 & 0x8
        != 0 && 0x2ABu32 & 0x10 == 0 && 0x2ABu32 & 0x20 != 0 && 0x2ABu32 & 0x40 == 0 && 0x2ABu32
        & 0x80 != 0 && 0x2ABu32 & 0x200 != 0) by (bit_vector);
}

} // verus!
