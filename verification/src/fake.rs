//! A scripted in-memory driver, verified against the driver contracts.
//! It records writes, can echo every write back as readable bytes, can
//! refuse connects or writes, and can raise a scripted number of read
//! faults. Sessions over it run entirely in memory, which is what the
//! crate's tests exercise.

use vstd::prelude::*;

use crate::driver::{
    connect_transition, disconnect_transition, read_transition, write_transition, Driver,
    DriverFault, DriverState, ReadOutcome,
};
use crate::myserial::SerialPortInfo;

verus! {

/// An in-memory driver whose behaviour is scripted by its knobs.
pub struct FakeDriver {
    connect_ok: bool,
    connected: bool,
    echo: bool,
    write_ok: bool,
    faults: usize,
    log: Vec<Vec<u8>>,
    pending: Vec<u8>,
}

impl FakeDriver {
    /// A fresh, closed driver with the given knobs, an empty write log and
    /// nothing readable.
    pub fn new(connect_ok: bool, echo: bool, write_ok: bool) -> (d: FakeDriver)
        ensures
            d.model() == (DriverState {
                connect_ok,
                connected: false,
                echo,
                write_ok,
                faults: 0,
                writes: Seq::empty(),
                readable: Seq::empty(),
            }),
    {
        let d = FakeDriver {
            connect_ok,
            connected: false,
            echo,
            write_ok,
            faults: 0,
            log: Vec::new(),
            pending: Vec::new(),
        };
        proof {
            assert(d.model().writes =~= Seq::<Seq<u8>>::empty());
            assert(d.model().readable =~= Seq::<u8>::empty());
        }
        d
    }

    /// A driver that echoes every accepted write back as readable bytes.
    pub fn loopback() -> (d: FakeDriver)
        ensures
            d.model() == (DriverState {
                connect_ok: true,
                connected: false,
                echo: true,
                write_ok: true,
                faults: 0,
                writes: Seq::empty(),
                readable: Seq::empty(),
            }),
    {
        FakeDriver::new(true, true, true)
    }

    /// A driver that records writes and never has anything to read.
    pub fn recorder() -> (d: FakeDriver)
        ensures
            d.model() == (DriverState {
                connect_ok: true,
                connected: false,
                echo: false,
                write_ok: true,
                faults: 0,
                writes: Seq::empty(),
                readable: Seq::empty(),
            }),
    {
        FakeDriver::new(true, false, true)
    }

    /// Script the next `count` read calls to raise an unexpected fault.
    pub fn inject_read_faults(&mut self, count: usize)
        ensures
            final(self).model() == (DriverState { faults: count as nat, ..old(self).model() }),
    {
        self.faults = count;
    }

    /// Make `bytes` arrive on the wire, after whatever is already waiting.
    pub fn feed(&mut self, bytes: &Vec<u8>)
        ensures
            final(self).model() == (DriverState {
                readable: old(self).model().readable + bytes@,
                ..old(self).model()
            }),
    {
        self.pending.extend_from_slice(bytes.as_slice());
        proof {
            assert(self.pending@ =~= old(self).pending@ + bytes@);
        }
    }

    /// Every payload written so far, in the order written.
    pub fn recorded(&self) -> (w: &Vec<Vec<u8>>)
        ensures
            w.deep_view() == self.model().writes,
    {
        &self.log
    }

    /// Whether the port is currently open.
    pub fn is_connected(&self) -> (c: bool)
        ensures
            c == self.model().connected,
    {
        self.connected
    }
}

impl Driver for FakeDriver {
    closed spec fn model(&self) -> DriverState {
        DriverState {
            connect_ok: self.connect_ok,
            connected: self.connected,
            echo: self.echo,
            write_ok: self.write_ok,
            faults: self.faults as nat,
            writes: self.log.deep_view(),
            readable: self.pending@,
        }
    }

    fn connect(&mut self, config: &SerialPortInfo) -> (r: Result<(), DriverFault>) {
        if self.connect_ok {
            self.connected = true;
            Ok(())
        } else {
            Err(DriverFault)
        }
    }

    fn write(&mut self, data: &Vec<u8>) -> (r: Result<usize, DriverFault>) {
        if self.write_ok {
            let entry = data.clone();
            proof {
                assert(entry@ =~= data@);
            }
            self.log.push(entry);
            if self.echo {
                self.pending.extend_from_slice(data.as_slice());
            }
            proof {
                assert(self.log@ == old(self).log@.push(entry));
                assert forall|i: int| 0 <= i < self.log.deep_view().len() implies self.log.deep_view()[i]
                    == old(self).log.deep_view().push(data@)[i] by {
                    if i < old(self).log@.len() {
                        assert(self.log@[i] == old(self).log@[i]);
                    } else {
                        assert(self.log@[i] == entry);
                    }
                }
                assert(self.log.deep_view() =~= old(self).log.deep_view().push(data@));
                if self.echo {
                    assert(self.pending@ =~= old(self).pending@ + data@);
                }
            }
            Ok(data.len())
        } else {
            Err(DriverFault)
        }
    }

    fn read(&mut self) -> (r: ReadOutcome) {
        if self.faults > 0 {
            self.faults = self.faults - 1;
            ReadOutcome::Fault
        } else if self.pending.len() == 0 {
            proof {
                assert(self.pending@ =~= Seq::<u8>::empty());
            }
            ReadOutcome::Timeout
        } else {
            let mut taken: Vec<u8> = Vec::new();
            core::mem::swap(&mut taken, &mut self.pending);
            proof {
                assert(self.pending@ =~= Seq::<u8>::empty());
            }
            ReadOutcome::Data(taken)
        }
    }

    fn disconnect(&mut self) -> (r: Result<(), DriverFault>) {
        self.connected = false;
        Ok(())
    }
}

} // verus!
