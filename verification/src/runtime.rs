//! The module runtime: an explicit state machine that sequences module
//! startup and ordered shutdown.
//!
//! Per module the lifecycle is `Created -> ProviderBuilt ->
//! HandlersRegistered -> DirectClosureEnabled -> Started -> Stopped`, with
//! the optional steps skipped when the descriptor does not take part in
//! them.  Across modules, transitions are strictly sequential: a module
//! completes its startup before the next module begins, so start order
//! follows registration order, and stop order is its exact reverse.
//!
//! The runtime decides; the embedder acts.  [`ModuleRuntime::next_action`]
//! names the single step that is due — build a provider, register handlers,
//! enable the direct closure, start or stop a module, tear the servers down
//! — the embedder performs it against its concrete factories and reports the
//! outcome back.  A failed startup step triggers a best-effort unwind that
//! stops every already-started module in reverse order; a failed stop is
//! recorded and never halts the shutdown of the remaining modules.

use vstd::prelude::*;
use vstd::pervasive::VecAdditionalExecFns;

use crate::errors::Error;
use crate::ids::ModuleId;
use crate::registry::{DescriptorModel, ModuleDescriptor};

verus! {

/// The lifecycle state of one module.
#[derive(Clone, Copy, PartialEq, Eq, Structural, Debug)]
pub enum ModulePhase {
    /// Known to the runtime, nothing built yet.
    Created,
    /// The service provider has been built from the descriptor.
    ProviderBuilt,
    /// The module and its handler set exist; handlers are registered with
    /// the active protocol servers.
    HandlersRegistered,
    /// The module's handlers are wired into the direct-closure registry.
    DirectClosureEnabled,
    /// The module's start hook has completed.
    Started,
    /// The module's stop hook has run.
    Stopped,
}

/// Where the runtime as a whole stands.
#[derive(Clone, Copy, PartialEq, Eq, Structural, Debug)]
pub enum RuntimeStage {
    /// Bringing modules up, in registration order.  Startup is complete when
    /// the cursor has passed the last module.
    Startup,
    /// A startup step failed; already-started modules are being stopped in
    /// reverse order, best effort.
    Unwinding,
    /// An orderly shutdown is stopping modules in reverse start order.
    ShuttingDown,
    /// The unwind after a startup failure has finished.
    Aborted,
    /// The orderly shutdown has finished.
    Terminated,
}

/// One step the embedder must perform against its concrete factories.
#[derive(Clone, Copy, PartialEq, Eq, Structural, Debug)]
pub enum RuntimeAction {
    /// Call the module's service-provider factory with a connector handle.
    BuildProvider(usize),
    /// Build the module and its handler set; register the handlers with the
    /// active protocol servers.
    RegisterHandlers(usize),
    /// Call the module's direct-closure enabler.
    EnableDirectClosure(usize),
    /// Inject the gateway factory and call the module's start hook.
    StartModule(usize),
    /// Call the module's stop hook.
    StopModule(usize),
    /// Tear down the protocol servers and the registry connection; due only
    /// after every started module has stopped.
    TearDownServers,
}

/// A phase a module holds before its start hook has run.
pub open spec fn pre_start(ph: ModulePhase) -> bool {
    ||| ph == ModulePhase::Created
    ||| ph == ModulePhase::ProviderBuilt
    ||| ph == ModulePhase::HandlersRegistered
    ||| ph == ModulePhase::DirectClosureEnabled
}

/// One module known to the runtime.
pub ghost struct SlotModel {
    pub id: Seq<char>,
    pub descriptor: DescriptorModel,
}

/// The mathematical value of a [`ModuleRuntime`].
pub ghost struct RuntimeModel {
    /// The modules, in registration order.
    pub slots: Seq<SlotModel>,
    /// The lifecycle phase of each module.
    pub phases: Seq<ModulePhase>,
    /// Where the runtime stands.
    pub stage: RuntimeStage,
    /// During startup, the first module that is not yet started; during
    /// shutdown, the number of modules still running.
    pub cursor: int,
    /// The modules whose start hook has completed, in start order.
    pub start_log: Seq<Seq<char>>,
    /// The modules whose stop hook has run, in stop order.
    pub stop_log: Seq<Seq<char>>,
    /// The modules whose stop hook failed; recorded, never fatal.
    pub stop_errors: Seq<Seq<char>>,
    /// Whether tearing down the servers failed.
    pub teardown_failed: bool,
}

/// The runtime's invariant: phases, cursor and logs agree with the stage.
pub open spec fn runtime_wf(m: RuntimeModel) -> bool {
    let n = m.slots.len() as int;
    let s = m.start_log.len() as int;
    &&& n <= usize::MAX
    &&& m.phases.len() == n
    &&& s <= n
    &&& forall|j: int| 0 <= j < s ==> m.start_log[j] == (#[trigger] m.slots[j]).id
    &&& match m.stage {
        RuntimeStage::Startup => {
            &&& m.cursor == s
            &&& forall|i: int| 0 <= i < s ==> m.phases[i] == ModulePhase::Started
            &&& (s < n ==> pre_start(m.phases[s]))
            &&& forall|i: int| s < i < n ==> m.phases[i] == ModulePhase::Created
            &&& m.stop_log.len() == 0
            &&& m.stop_errors.len() == 0
            &&& !m.teardown_failed
        },
        RuntimeStage::Unwinding => {
            &&& 0 <= m.cursor <= s
            &&& s < n
            &&& forall|i: int| 0 <= i < m.cursor ==> m.phases[i] == ModulePhase::Started
            &&& forall|i: int| m.cursor <= i < s ==> m.phases[i] == ModulePhase::Stopped
            &&& pre_start(m.phases[s])
            &&& forall|i: int| s < i < n ==> m.phases[i] == ModulePhase::Created
            &&& m.stop_log.len() == s - m.cursor
            &&& forall|j: int|
                0 <= j < m.stop_log.len() ==> m.stop_log[j] == (#[trigger] m.slots[s - 1 - j]).id
        },
        RuntimeStage::ShuttingDown => {
            &&& 0 <= m.cursor <= s
            &&& s == n
            &&& forall|i: int| 0 <= i < m.cursor ==> m.phases[i] == ModulePhase::Started
            &&& forall|i: int| m.cursor <= i < s ==> m.phases[i] == ModulePhase::Stopped
            &&& m.stop_log.len() == s - m.cursor
            &&& forall|j: int|
                0 <= j < m.stop_log.len() ==> m.stop_log[j] == (#[trigger] m.slots[s - 1 - j]).id
        },
        RuntimeStage::Aborted => {
            &&& m.cursor == 0
            &&& s < n
            &&& forall|i: int| 0 <= i < s ==> m.phases[i] == ModulePhase::Stopped
            &&& pre_start(m.phases[s])
            &&& forall|i: int| s < i < n ==> m.phases[i] == ModulePhase::Created
            &&& m.stop_log.len() == s
            &&& forall|j: int|
                0 <= j < m.stop_log.len() ==> m.stop_log[j] == (#[trigger] m.slots[s - 1 - j]).id
        },
        RuntimeStage::Terminated => {
            &&& m.cursor == 0
            &&& s == n
            &&& forall|i: int| 0 <= i < s ==> m.phases[i] == ModulePhase::Stopped
            &&& m.stop_log.len() == s
            &&& forall|j: int|
                0 <= j < m.stop_log.len() ==> m.stop_log[j] == (#[trigger] m.slots[s - 1 - j]).id
        },
    }
}

/// The single step due next, or nothing when the runtime is at rest.
pub open spec fn spec_next_action(m: RuntimeModel) -> Option<RuntimeAction> {
    match m.stage {
        RuntimeStage::Startup => if m.cursor == m.slots.len() {
            None
        } else {
            let k = m.cursor as usize;
            let ph = m.phases[m.cursor];
            let d = m.slots[m.cursor].descriptor;
            if ph == ModulePhase::Created {
                Some(RuntimeAction::BuildProvider(k))
            } else if ph == ModulePhase::ProviderBuilt && d.provides_handlers {
                Some(RuntimeAction::RegisterHandlers(k))
            } else if (ph == ModulePhase::ProviderBuilt || ph == ModulePhase::HandlersRegistered)
                && d.enables_direct_closure {
                Some(RuntimeAction::EnableDirectClosure(k))
            } else {
                Some(RuntimeAction::StartModule(k))
            }
        },
        RuntimeStage::Unwinding | RuntimeStage::ShuttingDown => if m.cursor > 0 {
            Some(RuntimeAction::StopModule((m.cursor - 1) as usize))
        } else {
            Some(RuntimeAction::TearDownServers)
        },
        RuntimeStage::Aborted | RuntimeStage::Terminated => None,
    }
}

/// The state after the due step succeeded.
pub open spec fn spec_apply_success(m: RuntimeModel) -> RuntimeModel {
    match spec_next_action(m) {
        None => m,
        Some(a) => match a {
            RuntimeAction::BuildProvider(k) => RuntimeModel {
                phases: m.phases.update(k as int, ModulePhase::ProviderBuilt),
                ..m
            },
            RuntimeAction::RegisterHandlers(k) => RuntimeModel {
                phases: m.phases.update(k as int, ModulePhase::HandlersRegistered),
                ..m
            },
            RuntimeAction::EnableDirectClosure(k) => RuntimeModel {
                phases: m.phases.update(k as int, ModulePhase::DirectClosureEnabled),
                ..m
            },
            RuntimeAction::StartModule(k) => RuntimeModel {
                phases: m.phases.update(k as int, ModulePhase::Started),
                start_log: m.start_log.push(m.slots[k as int].id),
                cursor: m.cursor + 1,
                ..m
            },
            RuntimeAction::StopModule(k) => RuntimeModel {
                phases: m.phases.update(k as int, ModulePhase::Stopped),
                stop_log: m.stop_log.push(m.slots[k as int].id),
                cursor: m.cursor - 1,
                ..m
            },
            RuntimeAction::TearDownServers => RuntimeModel {
                stage: if m.stage == RuntimeStage::Unwinding {
                    RuntimeStage::Aborted
                } else {
                    RuntimeStage::Terminated
                },
                ..m
            },
        },
    }
}

/// The state after the due step failed.
///
/// A failed startup step turns the runtime to unwinding without touching the
/// module's phase; a failed stop is recorded in `stop_errors` and treated as
/// stopped, so shutdown always runs to completion.
pub open spec fn spec_apply_failure(m: RuntimeModel) -> RuntimeModel {
    match spec_next_action(m) {
        None => m,
        Some(a) => match a {
            RuntimeAction::BuildProvider(_)
            | RuntimeAction::RegisterHandlers(_)
            | RuntimeAction::EnableDirectClosure(_)
            | RuntimeAction::StartModule(_) => RuntimeModel { stage: RuntimeStage::Unwinding, ..m },
            RuntimeAction::StopModule(k) => RuntimeModel {
                phases: m.phases.update(k as int, ModulePhase::Stopped),
                stop_log: m.stop_log.push(m.slots[k as int].id),
                stop_errors: m.stop_errors.push(m.slots[k as int].id),
                cursor: m.cursor - 1,
                ..m
            },
            RuntimeAction::TearDownServers => RuntimeModel {
                stage: if m.stage == RuntimeStage::Unwinding {
                    RuntimeStage::Aborted
                } else {
                    RuntimeStage::Terminated
                },
                teardown_failed: true,
                ..m
            },
        },
    }
}

/// A successful step preserves the invariant.
pub proof fn lemma_apply_success_wf(m: RuntimeModel)
    requires
        runtime_wf(m),
        spec_next_action(m) is Some,
    ensures
        runtime_wf(spec_apply_success(m)),
{
    let post = spec_apply_success(m);
    match spec_next_action(m) {
        None => {},
        Some(a) => match a {
            RuntimeAction::BuildProvider(k) => {
                assert(m.stage == RuntimeStage::Startup && m.cursor < m.slots.len());
                assert(runtime_wf(post));
            },
            RuntimeAction::RegisterHandlers(k) => {
                assert(m.stage == RuntimeStage::Startup && m.cursor < m.slots.len());
                assert(runtime_wf(post));
            },
            RuntimeAction::EnableDirectClosure(k) => {
                assert(m.stage == RuntimeStage::Startup && m.cursor < m.slots.len());
                assert(runtime_wf(post));
            },
            RuntimeAction::StartModule(k) => {
                assert(m.stage == RuntimeStage::Startup && m.cursor < m.slots.len());
                assert(k as int == m.cursor);
                assert(post.start_log.len() == m.start_log.len() + 1);
                assert(post.start_log[m.cursor] == m.slots[m.cursor].id);
                assert(runtime_wf(post));
            },
            RuntimeAction::StopModule(k) => {
                assert(m.stage == RuntimeStage::Unwinding || m.stage
                    == RuntimeStage::ShuttingDown);
                assert(m.cursor > 0);
                assert(k as int == m.cursor - 1);
                let s = m.start_log.len() as int;
                assert(post.stop_log.len() == s - post.cursor);
                assert(post.stop_log[s - m.cursor] == m.slots[m.cursor - 1].id);
                assert(runtime_wf(post));
            },
            RuntimeAction::TearDownServers => {
                assert(m.cursor == 0);
                assert(runtime_wf(post));
            },
        },
    }
}

/// A failed step preserves the invariant.
pub proof fn lemma_apply_failure_wf(m: RuntimeModel)
    requires
        runtime_wf(m),
        spec_next_action(m) is Some,
    ensures
        runtime_wf(spec_apply_failure(m)),
{
    let post = spec_apply_failure(m);
    match spec_next_action(m) {
        None => {},
        Some(a) => match a {
            RuntimeAction::BuildProvider(_)
            | RuntimeAction::RegisterHandlers(_)
            | RuntimeAction::EnableDirectClosure(_)
            | RuntimeAction::StartModule(_) => {
                assert(m.stage == RuntimeStage::Startup && m.cursor < m.slots.len());
                assert(runtime_wf(post));
            },
            RuntimeAction::StopModule(k) => {
                assert(m.stage == RuntimeStage::Unwinding || m.stage
                    == RuntimeStage::ShuttingDown);
                assert(m.cursor > 0);
                assert(k as int == m.cursor - 1);
                let s = m.start_log.len() as int;
                assert(post.stop_log.len() == s - post.cursor);
                assert(post.stop_log[s - m.cursor] == m.slots[m.cursor - 1].id);
                assert(runtime_wf(post));
            },
            RuntimeAction::TearDownServers => {
                assert(m.cursor == 0);
                assert(runtime_wf(post));
            },
        },
    }
}

/// One module known to the runtime: its identifier and descriptor.
struct ModuleEntry {
    id: ModuleId,
    descriptor: ModuleDescriptor,
}

/// The orchestrator.  It holds the lifecycle state; the embedder drives it
/// by performing the action [`ModuleRuntime::next_action`] names and
/// reporting the outcome.
pub struct ModuleRuntime {
    entries: Vec<ModuleEntry>,
    phases: Vec<ModulePhase>,
    stage: RuntimeStage,
    cursor: usize,
    start_log: Vec<ModuleId>,
    stop_log: Vec<ModuleId>,
    stop_errors: Vec<ModuleId>,
    teardown_failed: bool,
}

impl View for ModuleRuntime {
    type V = RuntimeModel;

    closed spec fn view(&self) -> RuntimeModel {
        RuntimeModel {
            slots: self.entries@.map_values(
                |e: ModuleEntry| SlotModel { id: e.id@, descriptor: e.descriptor@ },
            ),
            phases: self.phases@,
            stage: self.stage,
            cursor: self.cursor as int,
            start_log: self.start_log@.map_values(|m: ModuleId| m@),
            stop_log: self.stop_log@.map_values(|m: ModuleId| m@),
            stop_errors: self.stop_errors@.map_values(|m: ModuleId| m@),
            teardown_failed: self.teardown_failed,
        }
    }
}

impl ModuleRuntime {
    /// The runtime's invariant, over its mathematical value.
    pub open spec fn wf(&self) -> bool {
        runtime_wf(self@)
    }

    /// A runtime with no modules, ready for registration.
    pub fn new() -> (r: Self)
        ensures
            r.wf(),
            r@.slots.len() == 0,
            r@.stage == RuntimeStage::Startup,
            r@.cursor == 0,
            r@.start_log.len() == 0,
            r@.stop_log.len() == 0,
            r@.stop_errors.len() == 0,
            !r@.teardown_failed,
    {
        let r = ModuleRuntime {
            entries: Vec::new(),
            phases: Vec::new(),
            stage: RuntimeStage::Startup,
            cursor: 0,
            start_log: Vec::new(),
            stop_log: Vec::new(),
            stop_errors: Vec::new(),
            teardown_failed: false,
        };
        proof {
            assert(r@.slots =~= Seq::<SlotModel>::empty());
            assert(r@.start_log =~= Seq::<Seq<char>>::empty());
            assert(r@.stop_log =~= Seq::<Seq<char>>::empty());
            assert(r@.stop_errors =~= Seq::<Seq<char>>::empty());
        }
        r
    }

    /// Adds a module, before the orchestrator has begun consuming the table.
    pub fn add_module(&mut self, id: ModuleId, descriptor: ModuleDescriptor)
        requires
            old(self).wf(),
            old(self)@.stage == RuntimeStage::Startup,
            old(self)@.cursor == 0,
            old(self)@.slots.len() == 0 || old(self)@.phases[0] == ModulePhase::Created,
        ensures
            final(self).wf(),
            final(self)@ == (RuntimeModel {
                slots: old(self)@.slots.push(
                    SlotModel { id: id@, descriptor: descriptor@ },
                ),
                phases: old(self)@.phases.push(ModulePhase::Created),
                ..old(self)@
            }),
    {
        let ghost pre = self@;
        self.entries.push(ModuleEntry { id, descriptor });
        self.phases.push(ModulePhase::Created);
        let n = self.entries.len();
        proof {
            assert(self@.slots.len() == n as int);
            assert(self@.slots =~= pre.slots.push(
                SlotModel {
                    id: self.entries@.last().id@,
                    descriptor: self.entries@.last().descriptor@,
                },
            ));
            assert(self@.start_log =~= pre.start_log);
            assert(self@.stop_log =~= pre.stop_log);
            assert(self@.stop_errors =~= pre.stop_errors);
        }
    }

    /// How many modules the runtime knows.
    pub fn module_count(&self) -> (r: usize)
        ensures
            r == self@.slots.len(),
    {
        self.entries.len()
    }

    /// The identifier of the `i`-th module, in registration order.
    pub fn module_at(&self, i: usize) -> (r: &ModuleId)
        requires
            i < self@.slots.len(),
        ensures
            r@ == self@.slots[i as int].id,
    {
        &self.entries[i].id
    }

    /// The lifecycle phase of the `i`-th module.
    pub fn phase_of(&self, i: usize) -> (r: ModulePhase)
        requires
            i < self@.phases.len(),
        ensures
            r == self@.phases[i as int],
    {
        self.phases[i]
    }

    /// Where the runtime stands.
    pub fn stage(&self) -> (r: RuntimeStage)
        ensures
            r == self@.stage,
    {
        self.stage
    }

    /// Whether every module has started and the runtime is at rest.
    pub fn startup_complete(&self) -> (r: bool)
        ensures
            r == (self@.stage == RuntimeStage::Startup && self@.cursor == self@.slots.len()),
    {
        match self.stage {
            RuntimeStage::Startup => self.cursor == self.entries.len(),
            _ => false,
        }
    }

    /// The single step the embedder must perform next, or nothing when the
    /// runtime is at rest.
    pub fn next_action(&self) -> (r: Option<RuntimeAction>)
        requires
            self.wf(),
        ensures
            r == spec_next_action(self@),
    {
        match self.stage {
            RuntimeStage::Startup => {
                if self.cursor == self.entries.len() {
                    None
                } else {
                    let k = self.cursor;
                    let ph = self.phases[k];
                    let d = &self.entries[k].descriptor;
                    if ph == ModulePhase::Created {
                        Some(RuntimeAction::BuildProvider(k))
                    } else if ph == ModulePhase::ProviderBuilt && d.provides_handlers {
                        Some(RuntimeAction::RegisterHandlers(k))
                    } else if (ph == ModulePhase::ProviderBuilt
                        || ph == ModulePhase::HandlersRegistered) && d.enables_direct_closure {
                        Some(RuntimeAction::EnableDirectClosure(k))
                    } else {
                        Some(RuntimeAction::StartModule(k))
                    }
                }
            },
            RuntimeStage::Unwinding | RuntimeStage::ShuttingDown => {
                if self.cursor > 0 {
                    Some(RuntimeAction::StopModule(self.cursor - 1))
                } else {
                    Some(RuntimeAction::TearDownServers)
                }
            },
            RuntimeStage::Aborted | RuntimeStage::Terminated => None,
        }
    }

    /// Records that the due step succeeded and advances the state machine.
    pub fn report_success(&mut self)
        requires
            old(self).wf(),
            spec_next_action(old(self)@) is Some,
        ensures
            final(self).wf(),
            final(self)@ == spec_apply_success(old(self)@),
    {
        let ghost pre = self@;
        let action = self.next_action();
        match action {
            Some(RuntimeAction::BuildProvider(k)) => {
                self.phases.set(k, ModulePhase::ProviderBuilt);
            },
            Some(RuntimeAction::RegisterHandlers(k)) => {
                self.phases.set(k, ModulePhase::HandlersRegistered);
            },
            Some(RuntimeAction::EnableDirectClosure(k)) => {
                self.phases.set(k, ModulePhase::DirectClosureEnabled);
            },
            Some(RuntimeAction::StartModule(k)) => {
                proof {
                    assert(pre.stage == RuntimeStage::Startup && pre.cursor < pre.slots.len());
                }
                self.phases.set(k, ModulePhase::Started);
                let id = self.entries[k].id.duplicate();
                self.start_log.push(id);
                self.cursor = self.cursor + 1;
                proof {
                    assert(self@.start_log =~= pre.start_log.push(pre.slots[k as int].id));
                }
            },
            Some(RuntimeAction::StopModule(k)) => {
                proof {
                    assert(pre.cursor > 0);
                }
                self.phases.set(k, ModulePhase::Stopped);
                let id = self.entries[k].id.duplicate();
                self.stop_log.push(id);
                self.cursor = self.cursor - 1;
                proof {
                    assert(self@.stop_log =~= pre.stop_log.push(pre.slots[k as int].id));
                }
            },
            Some(RuntimeAction::TearDownServers) => {
                self.stage = match self.stage {
                    RuntimeStage::Unwinding => RuntimeStage::Aborted,
                    _ => RuntimeStage::Terminated,
                };
            },
            None => {},
        }
        proof {
            lemma_apply_success_wf(pre);
        }
    }

    /// Records that the due step failed.
    ///
    /// During startup this turns the runtime to unwinding, so already-started
    /// modules still receive a clean stop; during shutdown the failure is
    /// recorded and the remaining modules still stop.
    pub fn report_failure(&mut self)
        requires
            old(self).wf(),
            spec_next_action(old(self)@) is Some,
        ensures
            final(self).wf(),
            final(self)@ == spec_apply_failure(old(self)@),
    {
        let ghost pre = self@;
        let action = self.next_action();
        match action {
            Some(RuntimeAction::BuildProvider(_))
            | Some(RuntimeAction::RegisterHandlers(_))
            | Some(RuntimeAction::EnableDirectClosure(_))
            | Some(RuntimeAction::StartModule(_)) => {
                self.stage = RuntimeStage::Unwinding;
            },
            Some(RuntimeAction::StopModule(k)) => {
                proof {
                    assert(pre.cursor > 0);
                }
                self.phases.set(k, ModulePhase::Stopped);
                let id = self.entries[k].id.duplicate();
                self.stop_log.push(id);
                let id2 = self.entries[k].id.duplicate();
                self.stop_errors.push(id2);
                self.cursor = self.cursor - 1;
                proof {
                    assert(self@.stop_log =~= pre.stop_log.push(pre.slots[k as int].id));
                    assert(self@.stop_errors =~= pre.stop_errors.push(pre.slots[k as int].id));
                }
            },
            Some(RuntimeAction::TearDownServers) => {
                self.stage = match self.stage {
                    RuntimeStage::Unwinding => RuntimeStage::Aborted,
                    _ => RuntimeStage::Terminated,
                };
                self.teardown_failed = true;
            },
            None => {},
        }
        proof {
            lemma_apply_failure_wf(pre);
        }
    }

    /// Begins the orderly shutdown; due only once every module has started.
    pub fn begin_shutdown(&mut self)
        requires
            old(self).wf(),
            old(self)@.stage == RuntimeStage::Startup,
            old(self)@.cursor == old(self)@.slots.len(),
        ensures
            final(self).wf(),
            final(self)@ == (RuntimeModel { stage: RuntimeStage::ShuttingDown, ..old(self)@ }),
    {
        self.stage = RuntimeStage::ShuttingDown;
    }

    /// How startup ended: success once every module has started (or the
    /// orderly shutdown that followed), [`Error::ModuleStartFailed`] when a
    /// startup step failed and the runtime unwound.
    pub fn startup_outcome(&self) -> (r: Result<(), Error>)
        ensures
            r == (if self@.stage == RuntimeStage::Unwinding || self@.stage
                == RuntimeStage::Aborted {
                Err::<(), Error>(Error::ModuleStartFailed)
            } else {
                Ok::<(), Error>(())
            }),
    {
        match self.stage {
            RuntimeStage::Unwinding | RuntimeStage::Aborted => Err(Error::ModuleStartFailed),
            _ => Ok(()),
        }
    }

    /// How shutdown went: [`Error::ModuleStopFailed`] when any module's stop
    /// hook failed, success otherwise.  Stop failures never halt the
    /// shutdown; this reports them afterwards.
    pub fn shutdown_outcome(&self) -> (r: Result<(), Error>)
        ensures
            r == (if self@.stop_errors.len() > 0 {
                Err::<(), Error>(Error::ModuleStopFailed)
            } else {
                Ok::<(), Error>(())
            }),
    {
        if self.stop_errors.len() > 0 {
            Err(Error::ModuleStopFailed)
        } else {
            Ok(())
        }
    }

    /// The modules started so far, in start order.
    pub fn start_log(&self) -> (r: &Vec<ModuleId>)
        ensures
            r@.map_values(|m: ModuleId| m@) == self@.start_log,
    {
        &self.start_log
    }

    /// The modules stopped so far, in stop order.
    pub fn stop_log(&self) -> (r: &Vec<ModuleId>)
        ensures
            r@.map_values(|m: ModuleId| m@) == self@.stop_log,
    {
        &self.stop_log
    }

    /// The modules whose stop hook failed.
    pub fn stop_errors(&self) -> (r: &Vec<ModuleId>)
        ensures
            r@.map_values(|m: ModuleId| m@) == self@.stop_errors,
    {
        &self.stop_errors
    }

    /// Whether tearing down the servers failed.
    pub fn teardown_failed(&self) -> (r: bool)
        ensures
            r == self@.teardown_failed,
    {
        self.teardown_failed
    }
}

/// Start order always follows registration order: at every point of the
/// lifecycle the log of started modules is a prefix of the registration
/// order.
pub proof fn lemma_start_follows_registration(m: RuntimeModel)
    requires
        runtime_wf(m),
    ensures
        m.start_log.len() <= m.slots.len(),
        forall|j: int|
            0 <= j < m.start_log.len() ==> m.start_log[j] == (#[trigger] m.slots[j]).id,
{
}

/// After a completed orderly shutdown, every module was started in
/// registration order and stopped in the exact reverse order.
pub proof fn lemma_lifecycle_order(m: RuntimeModel)
    requires
        runtime_wf(m),
        m.stage == RuntimeStage::Terminated,
    ensures
        m.start_log.len() == m.slots.len(),
        forall|j: int|
            0 <= j < m.slots.len() ==> m.start_log[j] == (#[trigger] m.slots[j]).id,
        m.stop_log.len() == m.slots.len(),
        forall|j: int|
            0 <= j < m.slots.len() ==> m.stop_log[j] == (#[trigger] m.slots[m.slots.len() - 1 - j]).id,
{
}

/// A startup failure never robs a started module of its stop: after the
/// unwind has finished, exactly the modules that had started are stopped, in
/// the exact reverse of their start order, and no later module was ever
/// started.
pub proof fn lemma_unwind_stops_started(m: RuntimeModel)
    requires
        runtime_wf(m),
        m.stage == RuntimeStage::Aborted,
    ensures
        m.stop_log.len() == m.start_log.len(),
        forall|j: int|
            0 <= j < m.stop_log.len() ==> m.stop_log[j] == (#[trigger] m.slots[m.start_log.len() - 1
                - j]).id,
        forall|i: int|
            m.start_log.len() <= i < m.slots.len() ==> (#[trigger] m.phases[i])
                != ModulePhase::Started,
{
}

} // verus!
