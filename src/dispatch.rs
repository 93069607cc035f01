//! Synchronous task dispatch against a loaded module. Every step that calls
//! into the module is the host's outside work; this session decides the
//! order of the steps and what each observation leads to.
//!
//! The caller owns request and result throughout. A fresh instance is
//! created for the call, initialised, used, uninitialised and destroyed.

use vstd::prelude::*;
use crate::error::CubeMelonPluginErrorCode;
use crate::instance::CubeMelonPlugin;
use crate::modules::ModuleRegistry;
use crate::structs::{marked_error, CubeMelonTaskResult};
use crate::types::CubeMelonUUID;

verus! {

/// Where a dispatch stands.
#[derive(Debug, Clone, Copy, PartialEq, Eq, Structural)]
pub enum DispatchPhase {
    ResolvingSymbols,
    NegotiatingBasic,
    NegotiatingTask,
    CreatingInstance,
    Initializing,
    Executing,
    Uninitializing,
    DestroyingInstance,
    Finished,
}

/// Phases in which the session's instance exists.
pub open spec fn holds_instance(p: DispatchPhase) -> bool {
    ||| p == DispatchPhase::Initializing
    ||| p == DispatchPhase::Executing
    ||| p == DispatchPhase::Uninitializing
    ||| p == DispatchPhase::DestroyingInstance
}

/// What the host observed after performing the session's last action.
#[derive(Debug, Clone, Copy, PartialEq, Eq, Structural)]
pub enum DispatchEvent {
    Symbols { negotiate: bool, create: bool, destroy: bool },
    Negotiated { code: CubeMelonPluginErrorCode, table: bool },
    Created { instance: CubeMelonPlugin },
    Initialized { code: CubeMelonPluginErrorCode },
    Executed { code: CubeMelonPluginErrorCode },
    Uninitialized { code: CubeMelonPluginErrorCode },
    Destroyed,
}

/// The next thing the host must do.
#[derive(Debug, Clone, Copy, PartialEq, Eq, Structural)]
pub enum DispatchAction {
    ResolveSymbols,
    /// Negotiate `capability` (a mask) at the current interface version.
    Negotiate { capability: u64 },
    CreateInstance,
    /// Initialise the instance with the host services.
    Initialize { instance: CubeMelonPlugin },
    /// Run the single-task function with the caller's request and result.
    Execute { instance: CubeMelonPlugin },
    Uninitialize { instance: CubeMelonPlugin },
    DestroyInstance { instance: CubeMelonPlugin },
    /// The call is over; `code` goes back to the caller.
    Finish { code: CubeMelonPluginErrorCode },
}

/// The decisions of one dispatch. With `run_task` false the instance is
/// only initialised and uninitialised (the host's "run" command).
#[derive(Debug)]
pub struct DispatchSession {
    pub phase: DispatchPhase,
    pub run_task: bool,
    pub instance: CubeMelonPlugin,
    pub outcome: CubeMelonPluginErrorCode,
}

/// One step of a dispatch: from the phase, mode, instance and outcome so
/// far, and what the host observed, the next phase, instance and outcome
/// and the next action.
pub open spec fn dispatch_next(
    phase: DispatchPhase,
    run_task: bool,
    instance: CubeMelonPlugin,
    outcome: CubeMelonPluginErrorCode,
    event: DispatchEvent,
) -> (DispatchPhase, CubeMelonPlugin, CubeMelonPluginErrorCode, DispatchAction) {
    let finish = |code: CubeMelonPluginErrorCode| (DispatchPhase::Finished, instance, code, DispatchAction::Finish { code });
    let destroy = |code: CubeMelonPluginErrorCode| (DispatchPhase::DestroyingInstance, instance, code, DispatchAction::DestroyInstance { instance });
    match (phase, event) {
        (DispatchPhase::ResolvingSymbols, DispatchEvent::Symbols { negotiate, create, destroy: d }) =>
            if !negotiate {
                finish(CubeMelonPluginErrorCode::InterfaceNotSupported)
            } else if !create {
                finish(CubeMelonPluginErrorCode::PluginLoadFailed)
            } else if !d {
                finish(CubeMelonPluginErrorCode::PluginUnloadFailed)
            } else {
                (DispatchPhase::NegotiatingBasic, instance, outcome, DispatchAction::Negotiate { capability: 0 })
            },
        (DispatchPhase::NegotiatingBasic, DispatchEvent::Negotiated { code, table })
        | (DispatchPhase::NegotiatingTask, DispatchEvent::Negotiated { code, table }) =>
            if code != CubeMelonPluginErrorCode::Success {
                finish(code)
            } else if !table {
                finish(CubeMelonPluginErrorCode::InterfaceNotSupported)
            } else if phase == DispatchPhase::NegotiatingBasic && run_task {
                (DispatchPhase::NegotiatingTask, instance, outcome, DispatchAction::Negotiate { capability: SINGLE_TASK_MASK })
            } else {
                (DispatchPhase::CreatingInstance, instance, outcome, DispatchAction::CreateInstance)
            },
        (DispatchPhase::CreatingInstance, DispatchEvent::Created { instance: created }) =>
            if created.id == 0 {
                finish(CubeMelonPluginErrorCode::PluginLoadFailed)
            } else {
                (DispatchPhase::Initializing, created, outcome, DispatchAction::Initialize { instance: created })
            },
        (DispatchPhase::Initializing, DispatchEvent::Initialized { code }) =>
            if code != CubeMelonPluginErrorCode::Success {
                destroy(code)
            } else if run_task {
                (DispatchPhase::Executing, instance, outcome, DispatchAction::Execute { instance })
            } else {
                (DispatchPhase::Uninitializing, instance, outcome, DispatchAction::Uninitialize { instance })
            },
        (DispatchPhase::Executing, DispatchEvent::Executed { code }) =>
            (DispatchPhase::Uninitializing, instance, code, DispatchAction::Uninitialize { instance }),
        (DispatchPhase::Uninitializing, DispatchEvent::Uninitialized { code: _ }) => destroy(outcome),
        (DispatchPhase::DestroyingInstance, DispatchEvent::Destroyed) => finish(outcome),
        (DispatchPhase::DestroyingInstance, _) => destroy(outcome),
        (DispatchPhase::Initializing, _) | (DispatchPhase::Executing, _) | (DispatchPhase::Uninitializing, _) =>
            destroy(CubeMelonPluginErrorCode::InvalidState),
        _ => finish(CubeMelonPluginErrorCode::InvalidState),
    }
}

/// The failing code a plugin function reported in this step, if any: a
/// failed initialisation or a failed task. Only these are recorded in the
/// caller's result; the dispatcher's own failures leave it untouched.
pub open spec fn plugin_failure(phase: DispatchPhase, event: DispatchEvent) -> Option<CubeMelonPluginErrorCode> {
    match (phase, event) {
        (DispatchPhase::Initializing, DispatchEvent::Initialized { code }) => if code
            != CubeMelonPluginErrorCode::Success {
            Some(code)
        } else {
            None
        },
        (DispatchPhase::Executing, DispatchEvent::Executed { code }) => if code
            != CubeMelonPluginErrorCode::Success {
            Some(code)
        } else {
            None
        },
        _ => None,
    }
}

/// The single-task capability bit.
pub const SINGLE_TASK_MASK: u64 = 0x1;

impl DispatchSession {
    /// Begins a dispatch to `target`. An identity with no loaded module
    /// ends at once with `PluginNotFound`: nothing is resolved and no
    /// instance is created.
    pub fn start<M>(modules: &ModuleRegistry<M>, target: CubeMelonUUID, run_task: bool) -> (r: (
        DispatchSession,
        DispatchAction,
    ))
        ensures
            !modules.spec_is_loaded(target) ==> r.1 == (DispatchAction::Finish {
                code: CubeMelonPluginErrorCode::PluginNotFound,
            }) && r.0.phase == DispatchPhase::Finished,
            modules.spec_is_loaded(target) ==> r.1 == DispatchAction::ResolveSymbols && r.0.phase
                == DispatchPhase::ResolvingSymbols,
            r.0.run_task == run_task,
    {
        if !modules.is_loaded(target) {
            return (
                DispatchSession {
                    phase: DispatchPhase::Finished,
                    run_task,
                    instance: CubeMelonPlugin::null(),
                    outcome: CubeMelonPluginErrorCode::PluginNotFound,
                },
                DispatchAction::Finish { code: CubeMelonPluginErrorCode::PluginNotFound },
            );
        }
        (
            DispatchSession {
                phase: DispatchPhase::ResolvingSymbols,
                run_task,
                instance: CubeMelonPlugin::null(),
                outcome: CubeMelonPluginErrorCode::Success,
            },
            DispatchAction::ResolveSymbols,
        )
    }

    fn finish(&mut self, code: CubeMelonPluginErrorCode) -> (r: DispatchAction)
        ensures
            r == (DispatchAction::Finish { code }),
            final(self).phase == DispatchPhase::Finished,
            final(self).run_task == old(self).run_task,
            final(self).instance == old(self).instance,
            final(self).outcome == code,
    {
        self.phase = DispatchPhase::Finished;
        self.outcome = code;
        DispatchAction::Finish { code }
    }

    fn destroy(&mut self) -> (r: DispatchAction)
        ensures
            r == (DispatchAction::DestroyInstance { instance: old(self).instance }),
            final(self).phase == DispatchPhase::DestroyingInstance,
            final(self).instance == old(self).instance,
            final(self).run_task == old(self).run_task,
            final(self).outcome == old(self).outcome,
    {
        self.phase = DispatchPhase::DestroyingInstance;
        DispatchAction::DestroyInstance { instance: self.instance }
    }

    /// Advances the dispatch with what the host observed.
    ///
    /// - a missing negotiate entry point fails with `InterfaceNotSupported`,
    ///   a missing create with `PluginLoadFailed`, a missing destroy with
    ///   `PluginUnloadFailed`;
    /// - a failed negotiation (Basic, then single-task) fails with its own
    ///   code unchanged; success without a table with
    ///   `InterfaceNotSupported`;
    /// - a null instance fails with `PluginLoadFailed`;
    /// - a failed initialisation destroys the instance and returns its code;
    /// - otherwise the task runs, the instance is uninitialised (its code is
    ///   ignored) and destroyed, and the task's code is returned;
    /// - an instance, once created, is destroyed before the session ends;
    /// - a failing initialisation or task code is recorded in `result`; the
    ///   dispatcher's own failures leave `result` untouched.
    pub fn on_event(&mut self, event: DispatchEvent, result: &mut CubeMelonTaskResult) -> (r:
        DispatchAction)
        requires
            old(self).phase != DispatchPhase::Finished,
        ensures
            (final(self).phase, final(self).instance, final(self).outcome, r) == dispatch_next(
                old(self).phase,
                old(self).run_task,
                old(self).instance,
                old(self).outcome,
                event,
            ),
            *final(result) == match plugin_failure(old(self).phase, event) {
                Some(code) => marked_error(*old(result), code),
                None => *old(result),
            },
            final(self).run_task == old(self).run_task,
    {
        match (self.phase, event) {
            (DispatchPhase::ResolvingSymbols, DispatchEvent::Symbols { negotiate, create, destroy }) => {
                if !negotiate {
                    self.finish(CubeMelonPluginErrorCode::InterfaceNotSupported)
                } else if !create {
                    self.finish(CubeMelonPluginErrorCode::PluginLoadFailed)
                } else if !destroy {
                    self.finish(CubeMelonPluginErrorCode::PluginUnloadFailed)
                } else {
                    self.phase = DispatchPhase::NegotiatingBasic;
                    DispatchAction::Negotiate { capability: 0 }
                }
            },
            (DispatchPhase::NegotiatingBasic, DispatchEvent::Negotiated { code, table })
            | (DispatchPhase::NegotiatingTask, DispatchEvent::Negotiated { code, table }) => {
                if code != CubeMelonPluginErrorCode::Success {
                    self.finish(code)
                } else if !table {
                    self.finish(CubeMelonPluginErrorCode::InterfaceNotSupported)
                } else if self.phase == DispatchPhase::NegotiatingBasic && self.run_task {
                    self.phase = DispatchPhase::NegotiatingTask;
                    DispatchAction::Negotiate { capability: SINGLE_TASK_MASK }
                } else {
                    self.phase = DispatchPhase::CreatingInstance;
                    DispatchAction::CreateInstance
                }
            },
            (DispatchPhase::CreatingInstance, DispatchEvent::Created { instance }) => {
                if instance.is_null() {
                    self.finish(CubeMelonPluginErrorCode::PluginLoadFailed)
                } else {
                    self.instance = instance;
                    self.phase = DispatchPhase::Initializing;
                    DispatchAction::Initialize { instance }
                }
            },
            (DispatchPhase::Initializing, DispatchEvent::Initialized { code }) => {
                if code != CubeMelonPluginErrorCode::Success {
                    result.mark_error(code);
                    self.outcome = code;
                    self.destroy()
                } else if self.run_task {
                    self.phase = DispatchPhase::Executing;
                    DispatchAction::Execute { instance: self.instance }
                } else {
                    self.phase = DispatchPhase::Uninitializing;
                    DispatchAction::Uninitialize { instance: self.instance }
                }
            },
            (DispatchPhase::Executing, DispatchEvent::Executed { code }) => {
                if code != CubeMelonPluginErrorCode::Success {
                    result.mark_error(code);
                }
                self.outcome = code;
                self.phase = DispatchPhase::Uninitializing;
                DispatchAction::Uninitialize { instance: self.instance }
            },
            (DispatchPhase::Uninitializing, DispatchEvent::Uninitialized { code: _ }) => {
                self.destroy()
            },
            (DispatchPhase::DestroyingInstance, DispatchEvent::Destroyed) => {
                let code = self.outcome;
                self.finish(code)
            },
            (DispatchPhase::DestroyingInstance, _) => {
                self.destroy()
            },
            (DispatchPhase::Initializing, _)
            | (DispatchPhase::Executing, _)
            | (DispatchPhase::Uninitializing, _) => {
                self.outcome = CubeMelonPluginErrorCode::InvalidState;
                self.destroy()
            },
            _ => self.finish(CubeMelonPluginErrorCode::InvalidState),
        }
    }
}

} // verus!

verus! {

/// A task's failing code is what the dispatch returns: from Executing, the
/// executed code `e`, then uninitialisation (whatever its code) and
/// destruction, end the session with `Finish { code: e }` on the same
/// instance, which is destroyed just before.
pub proof fn lemma_executed_code_is_returned(
    instance: CubeMelonPlugin,
    outcome: CubeMelonPluginErrorCode,
    e: CubeMelonPluginErrorCode,
    u: CubeMelonPluginErrorCode,
)
    ensures
        ({
            let s1 = dispatch_next(DispatchPhase::Executing, true, instance, outcome, DispatchEvent::Executed { code: e });
            let s2 = dispatch_next(s1.0, true, s1.1, s1.2, DispatchEvent::Uninitialized { code: u });
            let s3 = dispatch_next(s2.0, true, s2.1, s2.2, DispatchEvent::Destroyed);
            &&& s1.3 == (DispatchAction::Uninitialize { instance })
            &&& s2.3 == (DispatchAction::DestroyInstance { instance })
            &&& s3.3 == (DispatchAction::Finish { code: e })
        }),
{
}

/// Once an instance exists, the session finishes only from the destroying
/// phase, that is, right after the instance is destroyed.
pub proof fn lemma_finish_only_after_destroy(
    phase: DispatchPhase,
    run_task: bool,
    instance: CubeMelonPlugin,
    outcome: CubeMelonPluginErrorCode,
    event: DispatchEvent,
)
    requires
        holds_instance(phase),
        dispatch_next(phase, run_task, instance, outcome, event).3 is Finish,
    ensures
        phase == DispatchPhase::DestroyingInstance,
        event == DispatchEvent::Destroyed,
{
}

/// A failed initialisation destroys the instance and returns its code.
pub proof fn lemma_failed_init_destroys(
    instance: CubeMelonPlugin,
    outcome: CubeMelonPluginErrorCode,
    run_task: bool,
    e: CubeMelonPluginErrorCode,
)
    requires
        e != CubeMelonPluginErrorCode::Success,
    ensures
        ({
            let s1 = dispatch_next(DispatchPhase::Initializing, run_task, instance, outcome, DispatchEvent::Initialized { code: e });
            let s2 = dispatch_next(s1.0, run_task, s1.1, s1.2, DispatchEvent::Destroyed);
            &&& s1.3 == (DispatchAction::DestroyInstance { instance })
            &&& s2.3 == (DispatchAction::Finish { code: e })
        }),
{
}

} // verus!
