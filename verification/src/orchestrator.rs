//! The orchestrated lifecycle: boot order and shutdown fan-out.
//!
//! The process edge owns the reactor, the sockets and the signal handler;
//! what it must never get wrong is the order of things, and that order is
//! decided here.  Boot advances through a fixed pipeline in which any
//! failure is fatal.  At shutdown, the external signal cancels only the
//! runtime watchdog; the two API launchers are cancelled when the watchdog
//! completes, and the orchestrator resolves once all three arms are done.

use vstd::prelude::*;

verus! {

use crate::error::{Error, ErrorKind};

/// Where the boot pipeline stands.
#[derive(Clone, Copy, Debug, PartialEq, Eq, Structural)]
pub enum BootStage {
    /// Settings loaded, nothing started.
    Init,
    /// The container runtime answered `init`.
    RuntimeReady,
    /// The settings cache guard ran.
    StateChecked,
    /// A device identity and root key exist.
    Provisioned,
    /// Watchdog and both API launchers are started and joined.
    Running,
    /// The join resolved; shutdown is complete.
    Finished,
}

/// Position of a stage in the pipeline.
pub open spec fn stage_rank(s: BootStage) -> int {
    match s {
        BootStage::Init => 0,
        BootStage::RuntimeReady => 1,
        BootStage::StateChecked => 2,
        BootStage::Provisioned => 3,
        BootStage::Running => 4,
        BootStage::Finished => 5,
    }
}

/// The error a failure at a stage surfaces: every one fatal.
pub open spec fn stage_failure(s: BootStage) -> ErrorKind {
    match s {
        BootStage::Init => ErrorKind::RuntimeFatal,
        BootStage::RuntimeReady => ErrorKind::CacheIo,
        BootStage::StateChecked => ErrorKind::ProvisioningFailed,
        BootStage::Provisioned => ErrorKind::RuntimeFatal,
        BootStage::Running => ErrorKind::ServiceError,
        BootStage::Finished => ErrorKind::Other,
    }
}

/// Advances the boot pipeline by one stage, or turns a stage's failure
/// into the fatal error that aborts boot.  The pipeline only ever moves
/// forward, one stage at a time.
pub fn boot_step(stage: BootStage, ok: bool) -> (r: Result<BootStage, Error>)
    requires
        stage != BootStage::Finished,
    ensures
        match r {
            Ok(next) => ok && stage_rank(next) == stage_rank(stage) + 1,
            Err(e) => !ok && e.kind == stage_failure(stage),
        },
{
    if ok {
        let next = match stage {
            BootStage::Init => BootStage::RuntimeReady,
            BootStage::RuntimeReady => BootStage::StateChecked,
            BootStage::StateChecked => BootStage::Provisioned,
            BootStage::Provisioned => BootStage::Running,
            BootStage::Running => BootStage::Finished,
            BootStage::Finished => BootStage::Finished,
        };
        Ok(next)
    } else {
        let kind = match stage {
            BootStage::Init => ErrorKind::RuntimeFatal,
            BootStage::RuntimeReady => ErrorKind::CacheIo,
            BootStage::StateChecked => ErrorKind::ProvisioningFailed,
            BootStage::Provisioned => ErrorKind::RuntimeFatal,
            BootStage::Running => ErrorKind::ServiceError,
            BootStage::Finished => ErrorKind::Other,
        };
        Err(Error::new(kind))
    }
}

/// What the joined arms have seen and done.
#[derive(Clone, Copy, Debug, PartialEq, Eq, Structural)]
pub struct SupervisorState {
    /// The runtime watchdog was told to stop.
    pub runtime_cancelled: bool,
    /// The runtime watchdog completed.
    pub runtime_done: bool,
    /// The management launcher was told to stop.
    pub mgmt_cancelled: bool,
    /// The workload launcher was told to stop.
    pub workload_cancelled: bool,
    /// The management launcher completed.
    pub mgmt_done: bool,
    /// The workload launcher completed.
    pub workload_done: bool,
    /// The orchestrator's own join resolved.
    pub resolved: bool,
}

/// What the process edge can report to the supervisor.
#[derive(Clone, Copy, Debug, PartialEq, Eq, Structural)]
pub enum Event {
    /// The external shutdown signal fired.
    ShutdownSignal,
    /// The runtime watchdog's future completed.
    RuntimeCompleted,
    /// The management launcher's future completed.
    ManagementCompleted,
    /// The workload launcher's future completed.
    WorkloadCompleted,
}

/// What the supervisor asks of the process edge in return.
#[derive(Clone, Copy, Debug, PartialEq, Eq, Structural)]
pub enum Action {
    /// Fire the runtime watchdog's cancellation channel.
    CancelRuntime,
    /// Fire the management launcher's cancellation channel.
    CancelManagement,
    /// Fire the workload launcher's cancellation channel.
    CancelWorkload,
    /// The join is complete: resolve with success.
    Resolve,
}

/// An event the supervisor can accept in a state: launchers complete only
/// once cancelled, and nothing completes twice.
pub open spec fn event_enabled(s: SupervisorState, e: Event) -> bool {
    match e {
        Event::ShutdownSignal => true,
        Event::RuntimeCompleted => !s.runtime_done,
        Event::ManagementCompleted => s.mgmt_cancelled && !s.mgmt_done,
        Event::WorkloadCompleted => s.workload_cancelled && !s.workload_done,
    }
}

/// The fan-out order, as a state invariant: a launcher is cancelled only
/// after the runtime completed, completes only after it was cancelled, and
/// the join resolves only after all three arms are done.
pub open spec fn supervisor_inv(s: SupervisorState) -> bool {
    &&& s.mgmt_cancelled ==> s.runtime_done
    &&& s.workload_cancelled ==> s.runtime_done
    &&& s.mgmt_done ==> s.mgmt_cancelled
    &&& s.workload_done ==> s.workload_cancelled
    &&& s.resolved ==> s.runtime_done && s.mgmt_done && s.workload_done
}

impl SupervisorState {
    /// The state at the moment the three arms are started.
    pub fn new() -> (r: SupervisorState)
        ensures
            r == (SupervisorState {
                runtime_cancelled: false,
                runtime_done: false,
                mgmt_cancelled: false,
                workload_cancelled: false,
                mgmt_done: false,
                workload_done: false,
                resolved: false,
            }),
            supervisor_inv(r),
    {
        SupervisorState {
            runtime_cancelled: false,
            runtime_done: false,
            mgmt_cancelled: false,
            workload_cancelled: false,
            mgmt_done: false,
            workload_done: false,
            resolved: false,
        }
    }

    /// Tests whether an event may be reported in this state.
    pub fn accepts(&self, e: &Event) -> (r: bool)
        ensures
            r == event_enabled(*self, *e),
    {
        match e {
            Event::ShutdownSignal => true,
            Event::RuntimeCompleted => !self.runtime_done,
            Event::ManagementCompleted => self.mgmt_cancelled && !self.mgmt_done,
            Event::WorkloadCompleted => self.workload_cancelled && !self.workload_done,
        }
    }

    /// Takes one event and answers with the next state and the actions the
    /// process edge must perform, in order.  The external signal cancels
    /// the runtime alone; the runtime's completion cancels both launchers;
    /// the last completion resolves the join.
    pub fn step(self, e: Event) -> (r: (SupervisorState, Vec<Action>))
        requires
            event_enabled(self, e),
        ensures
            supervisor_inv(self) ==> supervisor_inv(r.0),
            match e {
                Event::ShutdownSignal => {
                    &&& r.0 == (SupervisorState { runtime_cancelled: true, ..self })
                    &&& r.1@ == seq![Action::CancelRuntime]
                },
                Event::RuntimeCompleted => {
                    &&& r.0 == (SupervisorState {
                        runtime_done: true,
                        mgmt_cancelled: true,
                        workload_cancelled: true,
                        ..self
                    })
                    &&& r.1@ == seq![Action::CancelManagement, Action::CancelWorkload]
                },
                Event::ManagementCompleted => {
                    &&& r.0 == (SupervisorState {
                        mgmt_done: true,
                        resolved: self.runtime_done && self.workload_done,
                        ..self
                    })
                    &&& r.1@ == if self.runtime_done && self.workload_done {
                        seq![Action::Resolve]
                    } else {
                        Seq::<Action>::empty()
                    }
                },
                Event::WorkloadCompleted => {
                    &&& r.0 == (SupervisorState {
                        workload_done: true,
                        resolved: self.runtime_done && self.mgmt_done,
                        ..self
                    })
                    &&& r.1@ == if self.runtime_done && self.mgmt_done {
                        seq![Action::Resolve]
                    } else {
                        Seq::<Action>::empty()
                    }
                },
            },
    {
        let mut actions: Vec<Action> = Vec::new();
        let next = match e {
            Event::ShutdownSignal => {
                actions.push(Action::CancelRuntime);
                assert(actions@ =~= seq![Action::CancelRuntime]);
                SupervisorState { runtime_cancelled: true, ..self }
            },
            Event::RuntimeCompleted => {
                actions.push(Action::CancelManagement);
                actions.push(Action::CancelWorkload);
                assert(actions@ =~= seq![Action::CancelManagement, Action::CancelWorkload]);
                SupervisorState {
                    runtime_done: true,
                    mgmt_cancelled: true,
                    workload_cancelled: true,
                    ..self
                }
            },
            Event::ManagementCompleted => {
                let all = self.runtime_done && self.workload_done;
                if all {
                    actions.push(Action::Resolve);
                    assert(actions@ =~= seq![Action::Resolve]);
                } else {
                    assert(actions@ =~= Seq::<Action>::empty());
                }
                SupervisorState { mgmt_done: true, resolved: all, ..self }
            },
            Event::WorkloadCompleted => {
                let all = self.runtime_done && self.mgmt_done;
                if all {
                    actions.push(Action::Resolve);
                    assert(actions@ =~= seq![Action::Resolve]);
                } else {
                    assert(actions@ =~= Seq::<Action>::empty());
                }
                SupervisorState { workload_done: true, resolved: all, ..self }
            },
        };
        (next, actions)
    }
}

/// Shutdown fan-out: in any reachable supervisor state, a launcher has
/// completed only after the runtime completed, and the join has resolved
/// only after the runtime and both launchers completed — so the external
/// signal's consequences arrive in the fixed order runtime, launchers,
/// resolution.
pub proof fn lemma_shutdown_fan_out(s: SupervisorState)
    requires
        supervisor_inv(s),
    ensures
        s.mgmt_done ==> s.runtime_done,
        s.workload_done ==> s.runtime_done,
        s.resolved ==> s.runtime_done && s.mgmt_done && s.workload_done,
{
}

} // verus!
