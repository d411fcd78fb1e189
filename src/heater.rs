//! The heater: a serial device that takes `on` and `off` commands and
//! acknowledges each. The recorded state is optimistic: it is what the last
//! acknowledged command asked for, never read back from the hardware.
use vstd::prelude::*;

verus! {

/// The line speed of the heater's serial port.
pub const BAUD_RATE: u32 = 115_200;

/// How long a read of the acknowledgement may wait, in milliseconds.
pub const READ_TIMEOUT_MS: u64 = 100;

/// The size of the buffer that the acknowledgement is read into.
pub const ACK_BUFFER_LEN: usize = 64;

/// The heater's state as last commanded.
#[derive(Clone, Copy, Debug, PartialEq, Eq, Structural)]
pub enum HeaterState {
    Off,
    On,
}

/// The bytes of the command that asks for `target`: `on` or `off`, ended by
/// a carriage return.
pub open spec fn command_of(target: HeaterState) -> Seq<u8> {
    match target {
        HeaterState::On => seq![0x6fu8, 0x6eu8, 0x0du8],
        HeaterState::Off => seq![0x6fu8, 0x66u8, 0x66u8, 0x0du8],
    }
}

/// The recorded state after a command for `target` whose exchange (write,
/// then read of the acknowledgement) ended in `outcome`: the target on
/// success, whatever was read; the state before on failure.
pub open spec fn state_after<E>(before: HeaterState, target: HeaterState, outcome: Result<usize, E>) -> HeaterState {
    match outcome {
        Ok(_) => target,
        Err(_) => before,
    }
}

/// The command that asks for `target`.
pub fn command(target: HeaterState) -> (r: Vec<u8>)
    ensures
        r@ == command_of(target),
{
    let r = match target {
        HeaterState::On => vec![0x6fu8, 0x6eu8, 0x0du8],
        HeaterState::Off => vec![0x6fu8, 0x66u8, 0x66u8, 0x0du8],
    };
    assert(r@ =~= command_of(target));
    r
}

/// A zeroed buffer for the acknowledgement.
pub fn ack_buffer() -> (r: Vec<u8>)
    ensures
        r@ == Seq::new(ACK_BUFFER_LEN as nat, |i: int| 0u8),
{
    let mut r: Vec<u8> = Vec::new();
    while r.len() < ACK_BUFFER_LEN
        invariant
            r.len() <= ACK_BUFFER_LEN,
            forall|i: int| 0 <= i < r.len() ==> r@[i] == 0u8,
        decreases ACK_BUFFER_LEN - r.len(),
    {
        r.push(0u8);
    }
    assert(r@ =~= Seq::new(ACK_BUFFER_LEN as nat, |i: int| 0u8));
    r
}

/// The heater's serial port and its recorded state.
pub struct HeaterController<P> {
    port: P,
    state: HeaterState,
}

impl<P> HeaterController<P> {
    /// The recorded state.
    pub closed spec fn state_view(&self) -> HeaterState {
        self.state
    }

    /// The port.
    pub closed spec fn port_view(&self) -> P {
        self.port
    }

    /// A controller on an open port; the heater is taken to be off.
    pub fn new(port: P) -> (r: Self)
        ensures
            r.state_view() == HeaterState::Off,
            r.port_view() == port,
    {
        HeaterController { port, state: HeaterState::Off }
    }

    /// The recorded state.
    pub fn state(&self) -> (r: HeaterState)
        ensures
            r == self.state_view(),
    {
        self.state
    }

    /// The port, for the exchange of a command.
    pub fn port_mut(&mut self) -> (r: &mut P)
        ensures
            *r == old(self).port_view(),
            final(self).port_view() == *final(r),
            final(self).state_view() == old(self).state_view(),
    {
        &mut self.port
    }

    /// Records the end of an exchange for `target`: on success the state
    /// becomes `target`, whatever the acknowledgement held; on failure it is
    /// kept and the error handed back.
    pub fn finish_exchange<E>(&mut self, target: HeaterState, outcome: Result<usize, E>) -> (r: Result<(), E>)
        ensures
            final(self).state_view() == state_after(old(self).state_view(), target, outcome),
            final(self).port_view() == old(self).port_view(),
            r is Ok <==> outcome is Ok,
            outcome is Err ==> r == Err::<(), E>(outcome->Err_0),
    {
        match outcome {
            Ok(_) => {
                self.state = target;
                Ok(())
            },
            Err(e) => Err(e),
        }
    }
}

/// Switching on and then off leaves the heater recorded as off, whatever
/// the two acknowledgements held and whatever the state was before.
pub proof fn lemma_on_then_off<E>(before: HeaterState, on_ack: usize, off_ack: usize)
    ensures
        state_after::<E>(state_after::<E>(before, HeaterState::On, Ok(on_ack)), HeaterState::Off, Ok(off_ack))
            == HeaterState::Off,
{
}

} // verus!
