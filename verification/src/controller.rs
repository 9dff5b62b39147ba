//! The session controller: the caller-facing facade. It owns at most one
//! session — a worker, a command queue and a report queue — and exposes
//! `create_stream`, `push`, `try_receive_data` and `end_stream`, none of
//! which ever blocks the caller.

use vstd::prelude::*;

use crate::channel::{QueueModel, RecvOutcome, TextQueue};
use crate::driver::{connect_transition, Driver};
use crate::errors::TerminalError;
use crate::myserial::SerialPortInfo;
use crate::worker::{iteration_spec, loop_spec, IterationOutcome, RunnerState, TerminalRunner};

verus! {

/// A controller with zero or one live worker. The worker services the
/// queues when the controller polls it; a disconnect closes the command
/// queue, which is the only shutdown signal the worker observes.
pub struct TerminalController<D: Driver> {
    thread_id: u32,
    runner: Option<TerminalRunner<D>>,
    commands: TextQueue,
    reports: TextQueue,
}

impl<D: Driver> TerminalController<D> {
    /// The identifier sessions of this controller run under.
    pub closed spec fn id(&self) -> u32 {
        self.thread_id
    }

    /// Whether a worker is live: spawned and not yet taken down.
    pub closed spec fn is_live(&self) -> bool {
        self.runner is Some
    }

    /// The live worker.
    pub closed spec fn worker(&self) -> TerminalRunner<D>
        recommends
            self.is_live(),
    {
        self.runner->0
    }

    /// Model of the command queue, controller to worker.
    pub closed spec fn commands_model(&self) -> QueueModel {
        self.commands@
    }

    /// Model of the report queue, worker to controller.
    pub closed spec fn reports_model(&self) -> QueueModel {
        self.reports@
    }

    /// The controller's invariant: the report queue stays open, and a
    /// live worker is connecting or running over an open command queue.
    pub open spec fn wf(&self) -> bool {
        &&& !self.reports_model().closed
        &&& (self.is_live() ==> self.worker().wf())
        &&& (self.is_live() ==> self.worker().phase() is Connecting || self.worker().phase()
            is Running)
        &&& (self.is_live() ==> !self.commands_model().closed)
    }

    /// A fresh controller with no session.
    pub fn new(thread_id: u32) -> (c: Self)
        ensures
            c.wf(),
            !c.is_live(),
            c.id() == thread_id,
            c.commands_model().items.len() == 0,
            c.reports_model().items.len() == 0,
    {
        TerminalController {
            thread_id,
            runner: None,
            commands: TextQueue::new(),
            reports: TextQueue::new(),
        }
    }

    /// Spawn a session: a fresh queue pair and a worker that will attempt
    /// to connect with the given settings when it is next polled. Returns
    /// at once, without waiting for that attempt. Fails with
    /// `AlreadyConnected`, leaving the session untouched, if a worker is
    /// already live: a controller has at most one.
    pub fn create_stream(&mut self, sinfo: &SerialPortInfo, driver: D) -> (r: Result<
        (),
        TerminalError,
    >)
        requires
            old(self).wf(),
            !driver.model().connected,
        ensures
            final(self).wf(),
            final(self).id() == old(self).id(),
            old(self).is_live() ==> r == Err::<(), TerminalError>(TerminalError::AlreadyConnected)
                && *final(self) == *old(self),
            !old(self).is_live() ==> r is Ok && final(self).is_live() && final(self).worker().phase() is Connecting && final(self).worker().driver_model()
                == driver.model() && final(self).worker().id() == old(self).id() && final(self).worker().spec_config() == *sinfo && final(self).commands_model() == (QueueModel {
                items: Seq::empty(),
                closed: false,
            }) && final(self).reports_model() == (QueueModel {
                items: Seq::empty(),
                closed: false,
            }),
    {
        if self.runner.is_some() {
            return Err(TerminalError::AlreadyConnected);
        }
        self.commands = TextQueue::new();
        self.reports = TextQueue::new();
        self.runner = Some(TerminalRunner::new(self.thread_id, sinfo.clone(), driver));
        Ok(())
    }

    /// Queue a payload for transmission. Fails with `Disconnected`, and
    /// only then, if no worker is live; it never blocks and never panics.
    pub fn push(&mut self, data: String) -> (r: Result<(), TerminalError>)
        requires
            old(self).wf(),
        ensures
            final(self).wf(),
            final(self).id() == old(self).id(),
            !old(self).is_live() ==> r == Err::<(), TerminalError>(TerminalError::Disconnected)
                && *final(self) == *old(self),
            old(self).is_live() ==> r is Ok && final(self).is_live() && final(self).worker()
                == old(self).worker() && final(self).commands_model().items == old(
                self,
            ).commands_model().items.push(data@) && final(self).commands_model().closed == old(
                self,
            ).commands_model().closed && final(self).reports_model() == old(self).reports_model(),
    {
        if self.runner.is_some() {
            let _ = self.commands.send(data);
            Ok(())
        } else {
            Err(TerminalError::Disconnected)
        }
    }

    /// The next pending report, or nothing if the queue is empty or no
    /// session exists. Always returns immediately, connected or not.
    pub fn try_receive_data(&mut self) -> (r: Option<String>)
        requires
            old(self).wf(),
        ensures
            final(self).wf(),
            final(self).id() == old(self).id(),
            final(self).is_live() == old(self).is_live(),
            old(self).is_live() ==> final(self).worker() == old(self).worker(),
            final(self).commands_model() == old(self).commands_model(),
            final(self).reports_model().closed == old(self).reports_model().closed,
            old(self).reports_model().items.len() > 0 ==> (r matches Some(t) && t@ == old(
                self,
            ).reports_model().items[0] && final(self).reports_model().items == old(
                self,
            ).reports_model().items.drop_first()),
            old(self).reports_model().items.len() == 0 ==> r is None && final(self).reports_model().items == old(self).reports_model().items,
    {
        match self.reports.try_recv() {
            RecvOutcome::Received(text) => Some(text),
            _ => None,
        }
    }

    /// Give the live worker one turn: a connect attempt if it is still
    /// connecting, else one service iteration. A worker that fails to
    /// connect, or is told to stop by a closed queue, is taken down and
    /// dropped. Without a live worker this does nothing.
    pub fn poll_worker(&mut self)
        requires
            old(self).wf(),
        ensures
            final(self).wf(),
            final(self).id() == old(self).id(),
            !old(self).is_live() ==> *final(self) == *old(self),
            (old(self).is_live() && old(self).worker().phase() is Connecting) ==> ({
                let m = old(self).worker().driver_model();
                &&& final(self).commands_model() == old(self).commands_model()
                &&& final(self).reports_model() == old(self).reports_model()
                &&& (m.connect_ok ==> final(self).is_live() && final(self).worker().phase()
                    is Running && final(self).worker().driver_model() == connect_transition(m)
                    && final(self).worker().id() == old(self).worker().id() && final(self).worker().spec_config() == old(self).worker().spec_config())
                &&& (!m.connect_ok ==> !final(self).is_live())
            }),
            (old(self).is_live() && old(self).worker().phase() is Running) ==> ({
                let (d2, c2, r2, o) = iteration_spec(
                    old(self).worker().driver_model(),
                    old(self).commands_model(),
                    old(self).reports_model(),
                );
                &&& final(self).commands_model() == c2
                &&& final(self).reports_model() == r2
                &&& (o is Continue ==> final(self).is_live() && final(self).worker().phase()
                    is Running && final(self).worker().driver_model() == d2 && final(self).worker().id() == old(self).worker().id() && final(self).worker().spec_config()
                    == old(self).worker().spec_config())
                &&& (!(o is Continue) ==> !final(self).is_live())
            }),
            // Loopback: a pending nonempty command comes straight back as
            // its own report.
            ({
                let m = old(self).worker().driver_model();
                (old(self).is_live() && old(self).worker().phase() is Running && m.write_ok
                    && m.echo && m.faults == 0 && m.readable.len() == 0 && old(
                    self,
                ).commands_model().items.len() > 0 && old(self).commands_model().items[0].len()
                    > 0) ==> final(self).reports_model().items == old(
                    self,
                ).reports_model().items.push(old(self).commands_model().items[0])
            }),
    {
        let runner_opt = self.runner.take();
        match runner_opt {
            None => {},
            Some(mut r) => {
                match r.current_phase() {
                    RunnerState::Connecting => {
                        if r.startup().is_ok() {
                            self.runner = Some(r);
                        }
                    },
                    RunnerState::Running => {
                        match r.service_iteration(&mut self.commands, &mut self.reports) {
                            IterationOutcome::Continue => {
                                self.runner = Some(r);
                            },
                            _ => {
                                r.teardown();
                            },
                        }
                    },
                    _ => {
                        proof {
                            assert(false);
                        }
                    },
                }
            },
        }
    }

    /// End the session: close the command queue — the only shutdown
    /// signal — and take the worker down. The worker first writes every
    /// command still queued, reporting whatever those writes echo back,
    /// then closes the connection. Afterwards no worker is live, and
    /// pending reports can still be drained.
    pub fn end_stream(&mut self)
        requires
            old(self).wf(),
        ensures
            final(self).wf(),
            final(self).id() == old(self).id(),
            !final(self).is_live(),
            final(self).commands_model().closed,
            !old(self).is_live() ==> final(self).commands_model().items == old(
                self,
            ).commands_model().items && final(self).reports_model() == old(self).reports_model(),
            (old(self).is_live() && old(self).worker().phase() is Connecting && !old(
                self,
            ).worker().driver_model().connect_ok) ==> final(self).commands_model().items == old(
                self,
            ).commands_model().items && final(self).reports_model() == old(self).reports_model(),
            (old(self).is_live() && old(self).worker().phase() is Connecting && old(
                self,
            ).worker().driver_model().connect_ok) ==> ({
                let closed_cmds = QueueModel {
                    items: old(self).commands_model().items,
                    closed: true,
                };
                let fuel = (old(self).commands_model().items.len() + 1) as nat;
                let (df, cf, rf) = loop_spec(
                    connect_transition(old(self).worker().driver_model()),
                    closed_cmds,
                    old(self).reports_model(),
                    fuel,
                );
                final(self).commands_model() == cf && final(self).reports_model() == rf
            }),
            (old(self).is_live() && old(self).worker().phase() is Running) ==> ({
                let closed_cmds = QueueModel {
                    items: old(self).commands_model().items,
                    closed: true,
                };
                let fuel = (old(self).commands_model().items.len() + 1) as nat;
                let (df, cf, rf) = loop_spec(
                    old(self).worker().driver_model(),
                    closed_cmds,
                    old(self).reports_model(),
                    fuel,
                );
                final(self).commands_model() == cf && final(self).reports_model() == rf
            }),
    {
        self.commands.close();
        let runner_opt = self.runner.take();
        match runner_opt {
            None => {},
            Some(mut r) => {
                let live = match r.current_phase() {
                    RunnerState::Connecting => r.startup().is_ok(),
                    RunnerState::Running => true,
                    _ => {
                        proof {
                            assert(false);
                        }
                        false
                    },
                };
                if live {
                    let ghost m1 = r.driver_model();
                    let ghost c1 = self.commands@;
                    let ghost r1 = self.reports@;
                    let ghost f0 = (c1.items.len() + 1) as nat;
                    let ghost id0 = self.id();
                    let mut halted = false;
                    while !halted
                        invariant
                            r.wf(),
                            !self.is_live(),
                            self.id() == id0,
                            !halted ==> r.phase() is Running,
                            halted ==> r.phase() is Closing,
                            !self.reports@.closed,
                            self.commands@.closed,
                            !halted ==> loop_spec(m1, c1, r1, f0) == loop_spec(
                                r.driver_model(),
                                self.commands@,
                                self.reports@,
                                (self.commands@.items.len() + 1) as nat,
                            ),
                            halted ==> loop_spec(m1, c1, r1, f0) == (
                                r.driver_model(),
                                self.commands@,
                                self.reports@,
                            ),
                        decreases self.commands@.items.len() + (if halted {
                            0int
                        } else {
                            1int
                        }),
                    {
                        let ghost pre_model = r.driver_model();
                        let ghost pre_cmds = self.commands@;
                        let ghost pre_reps = self.reports@;
                        match r.service_iteration(&mut self.commands, &mut self.reports) {
                            IterationOutcome::Continue => {
                                proof {
                                    assert(pre_cmds.items.len() > 0);
                                    assert(loop_spec(
                                        pre_model,
                                        pre_cmds,
                                        pre_reps,
                                        (pre_cmds.items.len() + 1) as nat,
                                    ) == loop_spec(
                                        r.driver_model(),
                                        self.commands@,
                                        self.reports@,
                                        (self.commands@.items.len() + 1) as nat,
                                    ));
                                }
                            },
                            _ => {
                                halted = true;
                                proof {
                                    assert(loop_spec(
                                        pre_model,
                                        pre_cmds,
                                        pre_reps,
                                        (pre_cmds.items.len() + 1) as nat,
                                    ) == (r.driver_model(), self.commands@, self.reports@));
                                }
                            },
                        }
                    }
                    r.teardown();
                }
            },
        }
    }
}

} // verus!
