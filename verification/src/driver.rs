//! The driver boundary of spec: an opaque capability exposing
//! connect/read/write/disconnect against a physical or virtual port. The
//! session core does not interpret the bytes exchanged; it only reacts to
//! success, failure or timeout.
//!
//! A driver is specified through an abstract state: whether it is open,
//! the payloads written so far, the bytes waiting to be read, and the
//! knobs that script how it answers (whether opening and writing succeed,
//! whether writes echo back, how many reads fault). Every implementation
//! in this crate is verified against these contracts; the physical port
//! lives outside the library.

use vstd::prelude::*;

use crate::myserial::SerialPortInfo;

verus! {

/// Abstract state of a driver.
pub struct DriverState {
    /// Whether an attempt to open the port succeeds.
    pub connect_ok: bool,
    /// Whether the port is currently open.
    pub connected: bool,
    /// Whether a successful write echoes its bytes back as readable data.
    pub echo: bool,
    /// Whether writes are accepted.
    pub write_ok: bool,
    /// How many of the next read calls raise an unexpected fault.
    pub faults: nat,
    /// Every payload written so far, in the order written.
    pub writes: Seq<Seq<u8>>,
    /// Bytes that have arrived on the wire and await reading.
    pub readable: Seq<u8>,
}

/// A failure reported by the driver: the port could not be opened, written
/// or closed.
#[derive(Clone, Copy, PartialEq, Eq, Structural, Debug)]
pub struct DriverFault;

/// What one bounded-timeout read call yielded.
#[derive(Debug)]
pub enum ReadOutcome {
    /// Bytes arrived: everything that was readable, in arrival order.
    Data(Vec<u8>),
    /// Nothing arrived within the timeout.
    Timeout,
    /// The call failed in an unexpected way.
    Fault,
}

/// How a connect attempt changes the driver state.
pub open spec fn connect_transition(d: DriverState) -> DriverState {
    if d.connect_ok {
        DriverState { connected: true, ..d }
    } else {
        d
    }
}

/// How a write of `data` changes the driver state: an accepted write is
/// recorded, and echoed back if the driver echoes; a rejected write
/// changes nothing.
pub open spec fn write_transition(d: DriverState, data: Seq<u8>) -> DriverState {
    if d.write_ok {
        DriverState {
            writes: d.writes.push(data),
            readable: if d.echo {
                d.readable + data
            } else {
                d.readable
            },
            ..d
        }
    } else {
        d
    }
}

/// How a read call changes the driver state: a faulting read consumes one
/// scripted fault and leaves the data in place; otherwise everything
/// readable is taken.
pub open spec fn read_transition(d: DriverState) -> DriverState {
    if d.faults > 0 {
        DriverState { faults: (d.faults - 1) as nat, ..d }
    } else {
        DriverState { readable: Seq::empty(), ..d }
    }
}

/// How closing the port changes the driver state.
pub open spec fn disconnect_transition(d: DriverState) -> DriverState {
    DriverState { connected: false, ..d }
}

/// The capability the session worker drives. One implementation backs the
/// verified session model and its tests; the physical port is handled by
/// unverified glue outside this crate.
pub trait Driver: Sized {
    /// The abstract state this driver is in.
    spec fn model(&self) -> DriverState;

    /// Try to open the port with the given settings.
    fn connect(&mut self, config: &SerialPortInfo) -> (r: Result<(), DriverFault>)
        requires
            !old(self).model().connected,
        ensures
            final(self).model() == connect_transition(old(self).model()),
            r is Ok <==> old(self).model().connect_ok,
    ;

    /// Write a payload to the wire. Returns how many bytes were written.
    fn write(&mut self, data: &Vec<u8>) -> (r: Result<usize, DriverFault>)
        requires
            old(self).model().connected,
        ensures
            final(self).model() == write_transition(old(self).model(), data@),
            r is Ok <==> old(self).model().write_ok,
            r matches Ok(n) ==> n == data@.len(),
    ;

    /// Read whatever has arrived, within a short bounded timeout.
    fn read(&mut self) -> (r: ReadOutcome)
        requires
            old(self).model().connected,
        ensures
            final(self).model() == read_transition(old(self).model()),
            r is Fault <==> old(self).model().faults > 0,
            old(self).model().faults == 0 && old(self).model().readable.len() == 0 ==> r
                is Timeout,
            old(self).model().faults == 0 && old(self).model().readable.len() > 0 ==> (r
                matches ReadOutcome::Data(data) && data@ == old(self).model().readable),
    ;

    /// Close the port. The session is over whether or not this succeeds.
    fn disconnect(&mut self) -> (r: Result<(), DriverFault>)
        requires
            old(self).model().connected,
        ensures
            final(self).model() == disconnect_transition(old(self).model()),
    ;
}

} // verus!
