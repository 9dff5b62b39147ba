//! The session worker: it owns the connection exclusively, drains the
//! command queue onto the wire, reads the wire into reports, and shuts
//! down cooperatively when a queue closes. A write failure or a read
//! fault is contained: the iteration is skipped and the session lives on.

use vstd::prelude::*;
use vstd::utf8::encode_utf8;

use crate::channel::{QueueModel, RecvOutcome, TextQueue};
use crate::codec::{decode_lossy, encode_text, lemma_decode_inverts_encode, lossy_text};
use crate::driver::{
    connect_transition, disconnect_transition, read_transition, write_transition, Driver,
    DriverState, ReadOutcome,
};
use crate::errors::TerminalError;
use crate::myserial::SerialPortInfo;

verus! {

/// Lifecycle of a worker: it connects, runs until a queue signals
/// closure, closes the connection, and is then terminated. Only queue
/// closure can force a transition out of `Running`.
#[derive(Clone, Copy, PartialEq, Eq, Structural, Debug)]
pub enum RunnerState {
    Connecting,
    Running,
    Closing,
    Terminated,
}

/// Why one service iteration ended.
#[derive(Clone, Copy, PartialEq, Eq, Structural, Debug)]
pub enum IterationOutcome {
    /// The session lives on.
    Continue,
    /// The command queue's producer is gone: shut down.
    CommandsClosed,
    /// The report queue's consumer is gone: shut down.
    ReportsClosed,
}

/// First half of an iteration: if a command is pending it is taken and
/// written to the wire (a rejected write is dropped, non-fatal); if the
/// command queue is closed and drained, the worker is told to stop.
pub open spec fn command_phase(d: DriverState, cmds: QueueModel) -> (DriverState, QueueModel, bool) {
    if cmds.items.len() > 0 {
        (
            write_transition(d, encode_utf8(cmds.items[0])),
            QueueModel { items: cmds.items.drop_first(), closed: cmds.closed },
            false,
        )
    } else if cmds.closed {
        (d, cmds, true)
    } else {
        (d, cmds, false)
    }
}

/// Second half of an iteration: a short-timeout read. Arrived bytes are
/// decoded and pushed as a report; a timeout or a fault is non-fatal; a
/// report that cannot be delivered tells the worker to stop.
pub open spec fn read_phase(d: DriverState, reps: QueueModel) -> (DriverState, QueueModel, bool) {
    let taken = read_transition(d);
    if d.faults == 0 && d.readable.len() > 0 {
        if reps.closed {
            (taken, reps, true)
        } else {
            (
                taken,
                QueueModel { items: reps.items.push(lossy_text(d.readable)), closed: reps.closed },
                false,
            )
        }
    } else {
        (taken, reps, false)
    }
}

/// One full service iteration: the command phase, then, if the worker was
/// not told to stop, the read phase.
pub open spec fn iteration_spec(d: DriverState, cmds: QueueModel, reps: QueueModel) -> (
    DriverState,
    QueueModel,
    QueueModel,
    IterationOutcome,
) {
    let (d1, c1, stop1) = command_phase(d, cmds);
    if stop1 {
        (d1, c1, reps, IterationOutcome::CommandsClosed)
    } else {
        let (d2, r2, stop2) = read_phase(d1, reps);
        if stop2 {
            (d2, c1, r2, IterationOutcome::ReportsClosed)
        } else {
            (d2, c1, r2, IterationOutcome::Continue)
        }
    }
}

/// The service loop, run for at most `fuel` iterations or until an
/// iteration tells the worker to stop.
pub open spec fn loop_spec(d: DriverState, cmds: QueueModel, reps: QueueModel, fuel: nat) -> (
    DriverState,
    QueueModel,
    QueueModel,
)
    decreases fuel,
{
    if fuel == 0 {
        (d, cmds, reps)
    } else {
        let (d2, c2, r2, o) = iteration_spec(d, cmds, reps);
        if o is Continue {
            loop_spec(d2, c2, r2, (fuel - 1) as nat)
        } else {
            (d2, c2, r2)
        }
    }
}

/// The wire image of a sequence of payloads: each encoded as its UTF-8
/// bytes, in order.
pub open spec fn encoded_items(items: Seq<Seq<char>>) -> Seq<Seq<u8>> {
    items.map_values(|t: Seq<char>| encode_utf8(t))
}

/// The service loop writes every pending command to the wire, in
/// submission order, whenever the driver accepts writes, the report queue
/// stays open, and the loop has an iteration for each pending command.
pub proof fn lemma_loop_writes(d: DriverState, cmds: QueueModel, reps: QueueModel, fuel: nat)
    requires
        d.write_ok,
        !reps.closed,
        fuel >= cmds.items.len(),
    ensures
        loop_spec(d, cmds, reps, fuel).0.writes == d.writes + encoded_items(cmds.items),
    decreases fuel,
{
    if fuel == 0 {
        assert(d.writes + encoded_items(cmds.items) =~= d.writes);
    } else {
        let (d2, c2, r2, o) = iteration_spec(d, cmds, reps);
        if cmds.items.len() > 0 {
            assert(!r2.closed);
            lemma_loop_writes(d2, c2, r2, (fuel - 1) as nat);
            assert(loop_spec(d, cmds, reps, fuel).0.writes =~= d.writes + encoded_items(
                cmds.items,
            ));
        } else if cmds.closed {
            assert(d.writes + encoded_items(cmds.items) =~= d.writes);
        } else {
            lemma_loop_writes(d2, c2, r2, (fuel - 1) as nat);
            assert(d.writes + encoded_items(cmds.items) =~= d.writes);
        }
    }
}

/// An idle iteration changes nothing: with no pending command, an open
/// command queue, no scripted fault and nothing readable, the loop ends
/// where it started.
proof fn lemma_loop_idle(d: DriverState, cmds: QueueModel, reps: QueueModel, fuel: nat)
    requires
        d.faults == 0,
        d.readable.len() == 0,
        cmds.items.len() == 0,
        !cmds.closed,
    ensures
        loop_spec(d, cmds, reps, fuel) == (d, cmds, reps),
    decreases fuel,
{
    if fuel > 0 {
        assert(read_transition(d).readable =~= d.readable);
        assert(read_transition(d) == d);
        lemma_loop_idle(d, cmds, reps, (fuel - 1) as nat);
    }
}

/// Once bytes are waiting, each scripted read fault delays their delivery
/// by one iteration; when the faults have passed they come back as one
/// report and nothing else changes.
proof fn lemma_loop_delivers(d: DriverState, cmds: QueueModel, reps: QueueModel, fuel: nat)
    requires
        d.readable.len() > 0,
        cmds.items.len() == 0,
        !cmds.closed,
        !reps.closed,
        fuel >= d.faults + 1,
    ensures
        loop_spec(d, cmds, reps, fuel).0.writes == d.writes,
        loop_spec(d, cmds, reps, fuel).2.items == reps.items.push(lossy_text(d.readable)),
    decreases fuel,
{
    if d.faults > 0 {
        lemma_loop_delivers(read_transition(d), cmds, reps, (fuel - 1) as nat);
    } else {
        let d2 = read_transition(d);
        let r2 = QueueModel { items: reps.items.push(lossy_text(d.readable)), closed: reps.closed };
        lemma_loop_idle(d2, cmds, r2, (fuel - 1) as nat);
    }
}

/// Fault containment: read faults never end the session. A single
/// nonempty payload sent over an echoing, accepting driver that is about
/// to raise any number of scripted read faults is still written, and
/// still comes back as its own report once the faults have passed.
pub proof fn lemma_faults_contained(d: DriverState, cmds: QueueModel, reps: QueueModel, fuel: nat)
    requires
        d.write_ok,
        d.echo,
        d.readable.len() == 0,
        cmds.items.len() == 1,
        cmds.items[0].len() > 0,
        !cmds.closed,
        !reps.closed,
        fuel >= d.faults + 1,
    ensures
        loop_spec(d, cmds, reps, fuel).0.writes == d.writes.push(encode_utf8(cmds.items[0])),
        loop_spec(d, cmds, reps, fuel).2.items == reps.items.push(
            lossy_text(encode_utf8(cmds.items[0])),
        ),
{
    let e = encode_utf8(cmds.items[0]);
    crate::codec::lemma_encode_nonempty(cmds.items[0]);
    let d1 = write_transition(d, e);
    assert(d1.readable =~= e);
    let c1 = QueueModel { items: cmds.items.drop_first(), closed: cmds.closed };
    if d1.faults > 0 {
        lemma_loop_delivers(read_transition(d1), c1, reps, (fuel - 1) as nat);
    } else {
        let d2 = read_transition(d1);
        let r2 = QueueModel {
            items: reps.items.push(lossy_text(d1.readable)),
            closed: reps.closed,
        };
        lemma_loop_idle(d2, c1, r2, (fuel - 1) as nat);
    }
}

/// The worker of one session: the sole owner of its connection for the
/// connection's entire lifetime.
pub struct TerminalRunner<D: Driver> {
    thread_id: u32,
    config: SerialPortInfo,
    state: RunnerState,
    driver: D,
}

impl<D: Driver> TerminalRunner<D> {
    /// The identifier the session was created under.
    pub closed spec fn id(&self) -> u32 {
        self.thread_id
    }

    /// Where in its lifecycle this worker stands.
    pub closed spec fn phase(&self) -> RunnerState {
        self.state
    }

    /// The driver this worker owns.
    pub closed spec fn spec_driver(&self) -> D {
        self.driver
    }

    /// The settings the session was opened with.
    pub closed spec fn spec_config(&self) -> SerialPortInfo {
        self.config
    }

    /// Abstract state of the owned driver.
    pub open spec fn driver_model(&self) -> DriverState {
        self.spec_driver().model()
    }

    /// The connection is open exactly while the worker serves it.
    pub open spec fn wf(&self) -> bool {
        &&& (self.phase() is Connecting ==> !self.driver_model().connected)
        &&& (self.phase() is Running ==> self.driver_model().connected)
        &&& (self.phase() is Closing ==> self.driver_model().connected)
    }

    /// A fresh worker, not yet connected.
    pub fn new(thread_id: u32, config: SerialPortInfo, driver: D) -> (r: Self)
        requires
            !driver.model().connected,
        ensures
            r.phase() is Connecting,
            r.id() == thread_id,
            r.spec_config() == config,
            r.driver_model() == driver.model(),
            r.wf(),
    {
        TerminalRunner { thread_id, config, state: RunnerState::Connecting, driver }
    }

    /// Where in its lifecycle this worker stands.
    pub fn current_phase(&self) -> (p: RunnerState)
        ensures
            p == self.phase(),
    {
        self.state
    }

    /// The driver this worker owns, for inspection.
    pub fn driver(&self) -> (d: &D)
        ensures
            *d == self.spec_driver(),
    {
        &self.driver
    }

    /// Startup: one bounded connect attempt through the driver. Failure is
    /// terminal for this worker; there is no retry.
    pub fn startup(&mut self) -> (r: Result<(), TerminalError>)
        requires
            old(self).phase() is Connecting,
            old(self).wf(),
        ensures
            final(self).wf(),
            final(self).id() == old(self).id(),
            final(self).spec_config() == old(self).spec_config(),
            final(self).driver_model() == connect_transition(old(self).driver_model()),
            r is Ok <==> old(self).driver_model().connect_ok,
            r is Ok ==> final(self).phase() is Running,
            r is Err ==> final(self).phase() is Terminated && r == Err::<(), TerminalError>(
                TerminalError::ConnectFailed,
            ),
    {
        match self.driver.connect(&self.config) {
            Ok(_) => {
                self.state = RunnerState::Running;
                Ok(())
            },
            Err(_) => {
                self.state = RunnerState::Terminated;
                Err(TerminalError::ConnectFailed)
            },
        }
    }

    /// One iteration of the service loop: take at most one command and
    /// write it, then read once. Write failures, timeouts and read faults
    /// are contained; only a closed queue ends the session.
    pub fn service_iteration(&mut self, commands: &mut TextQueue, reports: &mut TextQueue) -> (o:
        IterationOutcome)
        requires
            old(self).phase() is Running,
            old(self).wf(),
        ensures
            final(self).wf(),
            final(self).id() == old(self).id(),
            final(self).spec_config() == old(self).spec_config(),
            ({
                let (d2, c2, r2, oo) = iteration_spec(
                    old(self).driver_model(),
                    old(commands)@,
                    old(reports)@,
                );
                &&& final(self).driver_model() == d2
                &&& final(commands)@ == c2
                &&& final(reports)@ == r2
                &&& o == oo
            }),
            o is Continue ==> final(self).phase() is Running,
            !(o is Continue) ==> final(self).phase() is Closing,
            // A pending command over an echoing, accepting, fault-free
            // driver with nothing else waiting comes straight back as its
            // own report.
            (old(self).driver_model().write_ok && old(self).driver_model().echo && old(
                self,
            ).driver_model().faults == 0 && old(self).driver_model().readable.len() == 0 && old(
                commands,
            )@.items.len() > 0 && old(commands)@.items[0].len() > 0 && !old(
                reports,
            )@.closed) ==> final(reports)@.items == old(reports)@.items.push(
                old(commands)@.items[0],
            ),
    {
        match commands.try_recv() {
            RecvOutcome::Received(data) => {
                let bytes = encode_text(data.as_str());
                let _ = self.driver.write(&bytes);
            },
            RecvOutcome::Empty => {},
            RecvOutcome::Disconnected => {
                self.state = RunnerState::Closing;
                return IterationOutcome::CommandsClosed;
            },
        }
        match self.driver.read() {
            ReadOutcome::Data(buf) => {
                let text = decode_lossy(&buf);
                proof {
                    if old(commands)@.items.len() > 0 && old(self).driver_model().readable.len()
                        == 0 {
                        if old(commands)@.items[0].len() > 0 {
                            crate::codec::lemma_encode_nonempty(old(commands)@.items[0]);
                        }
                        lemma_decode_inverts_encode(old(commands)@.items[0]);
                        assert(old(self).driver_model().readable + encode_utf8(
                            old(commands)@.items[0],
                        ) =~= encode_utf8(old(commands)@.items[0]));
                    }
                }
                if !reports.send(text) {
                    self.state = RunnerState::Closing;
                    return IterationOutcome::ReportsClosed;
                }
            },
            ReadOutcome::Timeout => {},
            ReadOutcome::Fault => {},
        }
        IterationOutcome::Continue
    }

    /// The whole life of a worker: one connect attempt, then the service
    /// loop until a queue signals closure or `fuel` iterations have run,
    /// then teardown. Every queued command is written in submission
    /// order, and over a loopback driver every nonempty payload comes
    /// back as its own report, in order.
    pub fn action_loop(&mut self, commands: &mut TextQueue, reports: &mut TextQueue, fuel: usize)
        requires
            old(self).phase() is Connecting,
            old(self).wf(),
        ensures
            final(self).wf(),
            final(self).id() == old(self).id(),
            final(self).spec_config() == old(self).spec_config(),
            final(self).phase() is Terminated,
            !final(self).driver_model().connected,
            !old(self).driver_model().connect_ok ==> final(self).driver_model() == old(
                self,
            ).driver_model() && final(commands)@ == old(commands)@ && final(reports)@ == old(
                reports,
            )@,
            old(self).driver_model().connect_ok ==> ({
                let (df, cf, rf) = loop_spec(
                    connect_transition(old(self).driver_model()),
                    old(commands)@,
                    old(reports)@,
                    fuel as nat,
                );
                &&& final(self).driver_model() == disconnect_transition(df)
                &&& final(commands)@ == cf
                &&& final(reports)@ == rf
            }),
            // Commands reach the wire in submission order.
            ({
                let m0 = old(self).driver_model();
                (m0.connect_ok && m0.write_ok && !old(reports)@.closed && fuel >= old(
                    commands,
                )@.items.len()) ==> final(self).driver_model().writes == m0.writes
                    + encoded_items(old(commands)@.items)
            }),
            // Loopback: nonempty payloads come back as reports, in order.
            ({
                let m0 = old(self).driver_model();
                (m0.connect_ok && m0.write_ok && m0.echo && m0.faults == 0 && m0.readable.len()
                    == 0 && !old(reports)@.closed && fuel >= old(commands)@.items.len() && (
                forall|i: int|
                    0 <= i < old(commands)@.items.len() ==> old(commands)@.items[i].len() > 0))
                    ==> final(reports)@.items == old(reports)@.items + old(commands)@.items
                    && final(commands)@.items.len() == 0
            }),
    {
        let ghost self_init = *self;
        if self.startup().is_err() {
            return ;
        }
        let ghost d0 = self.driver_model();
        let ghost c0 = commands@;
        let ghost r0 = reports@;
        let ghost lb = d0.write_ok && d0.echo && d0.faults == 0 && d0.readable.len() == 0
            && !r0.closed && fuel >= c0.items.len() && (forall|i: int|
            0 <= i < c0.items.len() ==> c0.items[i].len() > 0);
        let mut remaining = fuel;
        let mut halted = false;
        let ghost mut consumed: int = 0;
        while remaining > 0 && !halted
            invariant
                self.wf(),
                self.id() == self_init.id(),
                self.spec_config() == self_init.spec_config(),
                !halted ==> self.phase() is Running,
                halted ==> self.phase() is Closing,
                remaining <= fuel,
                !halted ==> loop_spec(d0, c0, r0, fuel as nat) == loop_spec(
                    self.driver_model(),
                    commands@,
                    reports@,
                    remaining as nat,
                ),
                halted ==> loop_spec(d0, c0, r0, fuel as nat) == (
                    self.driver_model(),
                    commands@,
                    reports@,
                ),
                lb ==> (forall|i: int| 0 <= i < c0.items.len() ==> c0.items[i].len() > 0),
                lb ==> 0 <= consumed <= c0.items.len(),
                lb ==> commands@.items == c0.items.skip(consumed),
                lb ==> commands@.closed == c0.closed,
                lb ==> reports@.items == r0.items + c0.items.take(consumed),
                lb ==> !reports@.closed,
                lb ==> self.driver_model().write_ok && self.driver_model().echo
                    && self.driver_model().faults == 0 && self.driver_model().readable.len() == 0,
                lb && !halted ==> remaining >= c0.items.len() - consumed,
                lb && halted ==> consumed == c0.items.len(),
            decreases remaining,
        {
            let ghost pre_model = self.driver_model();
            let ghost pre_cmds = commands@;
            let ghost pre_reps = reports@;
            let ghost pre_remaining = remaining;
            let o = self.service_iteration(commands, reports);
            proof {
                if lb {
                    if pre_cmds.items.len() > 0 {
                        assert(pre_cmds.items.len() == c0.items.len() - consumed);
                        assert(0 <= consumed < c0.items.len());
                        assert(pre_cmds.items[0] == c0.items[consumed]);
                        assert(c0.items[consumed].len() > 0);
                        assert(reports@.items == pre_reps.items.push(pre_cmds.items[0]));
                        consumed = consumed + 1;
                        assert(commands@.items =~= c0.items.skip(consumed));
                        assert(c0.items.take(consumed) =~= c0.items.take(consumed - 1).push(
                            c0.items[consumed - 1],
                        ));
                        assert(reports@.items =~= r0.items + c0.items.take(consumed));
                    } else {
                        assert(consumed == c0.items.len());
                    }
                }
            }
            match o {
                IterationOutcome::Continue => {},
                _ => {
                    halted = true;
                },
            }
            proof {
                if halted {
                    assert(loop_spec(pre_model, pre_cmds, pre_reps, pre_remaining as nat) == (
                        self.driver_model(),
                        commands@,
                        reports@,
                    ));
                } else {
                    assert(loop_spec(pre_model, pre_cmds, pre_reps, pre_remaining as nat)
                        == loop_spec(
                        self.driver_model(),
                        commands@,
                        reports@,
                        (pre_remaining - 1) as nat,
                    ));
                }
            }
            remaining = remaining - 1;
        }
        if !halted {
            self.state = RunnerState::Closing;
        }
        self.teardown();
        proof {
            if d0.write_ok && !r0.closed && fuel >= c0.items.len() {
                lemma_loop_writes(d0, c0, r0, fuel as nat);
            }
        }
    }

    /// Teardown: close the connection. The session is over whether or not
    /// the close succeeds.
    pub fn teardown(&mut self)
        requires
            old(self).phase() is Closing,
            old(self).wf(),
        ensures
            final(self).wf(),
            final(self).id() == old(self).id(),
            final(self).spec_config() == old(self).spec_config(),
            final(self).phase() is Terminated,
            final(self).driver_model() == disconnect_transition(old(self).driver_model()),
    {
        let _ = self.driver.disconnect();
        self.state = RunnerState::Terminated;
    }
}

} // verus!
