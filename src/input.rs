//! Key transitions, and how they are picked out of the raw events that an
//! input device reports.
use vstd::prelude::*;

verus! {

/// The event type of key events in the Linux input protocol.
pub const EV_KEY: u16 = 1;

/// What happened to a key.
#[derive(Clone, Copy, Debug, PartialEq, Eq, Structural)]
pub enum Phase {
    Released,
    Pressed,
    Repeated,
}

/// A key that changed state, by its code.
#[derive(Clone, Copy, Debug, PartialEq, Eq, Structural)]
pub struct KeyTransition {
    pub code: u16,
    pub phase: Phase,
}

/// An event as the device reports it: type, code and value.
#[derive(Clone, Copy, Debug, PartialEq, Eq, Structural)]
pub struct RawEvent {
    pub event_type: u16,
    pub code: u16,
    pub value: i32,
}

/// The phase that a key event's value stands for, if any.
pub open spec fn phase_of(value: i32) -> Option<Phase> {
    if value == 0 {
        Some(Phase::Released)
    } else if value == 1 {
        Some(Phase::Pressed)
    } else if value == 2 {
        Some(Phase::Repeated)
    } else {
        None
    }
}

/// The key transition that a raw event stands for, if any.
pub open spec fn transition_of(e: RawEvent) -> Option<KeyTransition> {
    if e.event_type != EV_KEY {
        None
    } else {
        match phase_of(e.value) {
            Some(p) => Some(KeyTransition { code: e.code, phase: p }),
            None => None,
        }
    }
}

/// The key transitions of a sequence of raw events, in order.
pub open spec fn transitions_of(s: Seq<RawEvent>) -> Seq<KeyTransition>
    decreases s.len(),
{
    if s.len() == 0 {
        Seq::empty()
    } else {
        let rest = transitions_of(s.drop_last());
        match transition_of(s.last()) {
            Some(t) => rest.push(t),
            None => rest,
        }
    }
}

/// Maps a key event's value to its phase: 0 released, 1 pressed,
/// 2 repeated; any other value stands for no phase.
pub fn phase_from_value(value: i32) -> (r: Option<Phase>)
    ensures
        r == phase_of(value),
{
    match value {
        0 => Some(Phase::Released),
        1 => Some(Phase::Pressed),
        2 => Some(Phase::Repeated),
        _ => None,
    }
}

/// The key transition of one raw event; events of other types, and key
/// events with an unknown value, give none.
pub fn transition_from_raw(e: RawEvent) -> (r: Option<KeyTransition>)
    ensures
        r == transition_of(e),
{
    if e.event_type != EV_KEY {
        None
    } else {
        match phase_from_value(e.value) {
            Some(p) => Some(KeyTransition { code: e.code, phase: p }),
            None => None,
        }
    }
}

/// The key transitions of a batch of raw events, in the order delivered;
/// all other events are dropped.
pub fn key_transitions(batch: &Vec<RawEvent>) -> (r: Vec<KeyTransition>)
    ensures
        r@ == transitions_of(batch@),
{
    let mut out: Vec<KeyTransition> = Vec::new();
    let mut i: usize = 0;
    while i < batch.len()
        invariant
            i <= batch.len(),
            out@ == transitions_of(batch@.take(i as int)),
        decreases batch.len() - i,
    {
        proof {
            assert(batch@.take(i as int + 1).drop_last() == batch@.take(i as int));
        }
        match transition_from_raw(batch[i]) {
            Some(t) => out.push(t),
            None => {},
        }
        i = i + 1;
    }
    assert(batch@.take(batch.len() as int) == batch@);
    out
}

} // verus!
