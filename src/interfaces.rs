//! Capability interfaces. Each capability is a trait a plugin type
//! implements, and a table type whose operations reach an instance through
//! its handle: a null handle, or one that names no live instance of the
//! table's type tag, is refused before the plugin is ever called; otherwise
//! the operation is exactly the trait method on that instance.
//!
//! The Resident trait carries the lifecycle state machine as its contract.
//! The other traits name each method's outcome with a relation the
//! implementing plugin defines (by default it says nothing); the tables
//! pass that relation on unchanged.

use vstd::prelude::*;
use core::marker::PhantomData;
use crate::error::CubeMelonPluginErrorCode;
use crate::instance::{CubeMelonPlugin, InstanceStore};
use crate::memory::{
    AllocationLedger, CubeMelonPluginBasicInfoArray, CubeMelonString, CubeMelonUUIDArray,
    CubeMelonValue,
};
use crate::negotiation::{spec_negotiate, negotiate, CapabilityTable};
use crate::resident::{resident_start, resident_transition};
use crate::structs::{marked_error, CubeMelonTaskRequest, CubeMelonTaskResult};
use crate::types::{
    CubeMelonExecutionStatus, CubeMelonLanguage, CubeMelonPluginStateScope, CubeMelonUUID,
    CubeMelonVersion,
};

verus! {

/// Whether `handle` names a live instance of tag `kind` in `store`.
pub open spec fn resolves<T>(store: &InstanceStore<T>, handle: CubeMelonPlugin, kind: u64) -> bool {
    store.holds(handle, kind)
}

/// The payload at `store`'s position `k` is the only one that may differ
/// between `before` and `after` (no position, for `k` out of range); the
/// handles and their type tags stay.
pub open spec fn others_unchanged<T>(before: &InstanceStore<T>, after: &InstanceStore<T>, k: int) -> bool {
    &&& after.ids() == before.ids()
    &&& forall|j: int| 0 <= j < before.ids().len() && j != k ==> after.plugin_at(j) == before.plugin_at(j)
    &&& forall|j: int| 0 <= j < before.ids().len() ==> after.kind_at(j) == before.kind_at(j)
}

/// What every plugin provides: identity, naming, and init/uninit.
pub trait PluginBase {
    /// The advertised capability mask, as the contracts see it; a plugin
    /// whose mask is not Basic defines it.
    open spec fn spec_supported_types() -> u64 {
        0
    }

    fn get_uuid() -> CubeMelonUUID;

    fn get_version() -> CubeMelonVersion;

    /// The advertised capability mask.
    fn get_supported_types() -> (r: u64)
        ensures
            r == Self::spec_supported_types(),
    ;

    fn is_thread_safe() -> bool;

    fn get_thread_requirements() -> u32;

    fn get_name(&self, language: CubeMelonLanguage) -> &'static str;

    fn get_description(&self, language: CubeMelonLanguage) -> &'static str;

    fn initialize(&mut self) -> Result<(), CubeMelonPluginErrorCode>;

    fn uninitialize(&mut self) -> Result<(), CubeMelonPluginErrorCode>;
}

/// Negotiation for a plugin type: its advertised mask decides.
pub fn get_plugin_interface<T: PluginBase>(
    requested: u64,
    version: u32,
    out_table: &mut Option<CapabilityTable>,
) -> (r: CubeMelonPluginErrorCode)
    ensures
        (r, *final(out_table)) == spec_negotiate(T::spec_supported_types(), requested, version),
{
    negotiate(T::get_supported_types(), requested, version, out_table)
}

/// Synchronous execution: the caller owns request and result for the whole
/// call; anything the plugin attaches to the result is the caller's to
/// release.
pub trait CubeMelonSingleTaskInterface: Sized {
    /// Outcome of `execute` from this state: the request, the result
    /// before and after, the plugin after, and the code.
    open spec fn execute_post(
        &self,
        request: CubeMelonTaskRequest,
        before: CubeMelonTaskResult,
        after: Self,
        result: CubeMelonTaskResult,
        code: CubeMelonPluginErrorCode,
    ) -> bool {
        true
    }

    fn execute(&mut self, request: &CubeMelonTaskRequest, result: &mut CubeMelonTaskResult) -> (r:
        CubeMelonPluginErrorCode)
        ensures
            old(self).execute_post(*request, *old(result), *final(self), *final(result), r),
    ;
}

/// The single-task table of plugin type `T`, for instances of tag `kind`.
pub struct CubeMelonSingleTaskInterfaceImpl<T> {
    pub kind: u64,
    pub plugin_type: PhantomData<T>,
}

pub fn create_single_task_interface<T: CubeMelonSingleTaskInterface>(kind: u64) -> (r:
    CubeMelonSingleTaskInterfaceImpl<T>)
    ensures
        r.kind == kind,
{
    CubeMelonSingleTaskInterfaceImpl { kind, plugin_type: PhantomData }
}

impl<T: CubeMelonSingleTaskInterface> CubeMelonSingleTaskInterfaceImpl<T> {
    /// Runs the task on the instance behind `plugin`. Any failure, the
    /// dispatcher's or the plugin's, is recorded in `result` as status
    /// Error with the failing code.
    pub fn execute(
        &self,
        store: &mut InstanceStore<T>,
        plugin: CubeMelonPlugin,
        request: &CubeMelonTaskRequest,
        result: &mut CubeMelonTaskResult,
    ) -> (r: CubeMelonPluginErrorCode)
        requires
            old(store).wf(),
        ensures
            final(store).wf(),
            plugin.id == 0 ==> r == CubeMelonPluginErrorCode::NullPointer && others_unchanged(
                old(store),
                final(store),
                -1,
            ) && *final(result) == marked_error(*old(result), r),
            plugin.id != 0 && !resolves(old(store), plugin, self.kind) ==> r
                == CubeMelonPluginErrorCode::PluginNotFound && others_unchanged(old(store), final(store), -1)
                && *final(result) == marked_error(*old(result), r),
            plugin.id != 0 && resolves(old(store), plugin, self.kind) ==> others_unchanged(
                old(store),
                final(store),
                old(store).slot(plugin.id),
            ) && exists|mid: CubeMelonTaskResult|
                #[trigger] old(store).plugin_at(old(store).slot(plugin.id)).execute_post(
                    *request,
                    *old(result),
                    final(store).plugin_at(old(store).slot(plugin.id)),
                    mid,
                    r,
                ) && *final(result) == (if r == CubeMelonPluginErrorCode::Success {
                    mid
                } else {
                    marked_error(mid, r)
                }),
    {
        if plugin.is_null() {
            result.mark_error(CubeMelonPluginErrorCode::NullPointer);
            return CubeMelonPluginErrorCode::NullPointer;
        }
        let code = match store.get_mut(plugin, self.kind) {
            Some(p) => p.execute(request, result),
            None => CubeMelonPluginErrorCode::PluginNotFound,
        };
        let ghost mid = *result;
        if code != CubeMelonPluginErrorCode::Success {
            result.mark_error(code);
        }
        proof {
            if resolves(old(store), plugin, self.kind) {
                assert(old(store).plugin_at(old(store).slot(plugin.id)).execute_post(
                    *request,
                    *old(result),
                    store.plugin_at(old(store).slot(plugin.id)),
                    mid,
                    code,
                ));
            }
        }
        code
    }
}

/// Asynchronous execution. The caller keeps the request alive until the
/// completion callback fires; `request_id` names it, and `notify` says
/// whether a callback was supplied.
pub trait CubeMelonAsyncTaskInterface: Sized {
    open spec fn execute_post(
        &self,
        request: CubeMelonTaskRequest,
        request_id: u64,
        notify: bool,
        after: Self,
        code: CubeMelonPluginErrorCode,
    ) -> bool {
        true
    }

    open spec fn cancel_post(&self, request_id: u64, after: Self, code: CubeMelonPluginErrorCode) -> bool {
        true
    }

    fn execute(&mut self, request: &CubeMelonTaskRequest, request_id: u64, notify: bool) -> (r:
        CubeMelonPluginErrorCode)
        ensures
            old(self).execute_post(*request, request_id, notify, *final(self), r),
    ;

    /// Cancels a pending request; one that already finished is ignored.
    fn cancel(&mut self, request_id: u64) -> (r: CubeMelonPluginErrorCode)
        ensures
            old(self).cancel_post(request_id, *final(self), r),
    ;
}

/// The async-task table of plugin type `T`, for instances of tag `kind`.
pub struct CubeMelonAsyncTaskInterfaceImpl<T> {
    pub kind: u64,
    pub plugin_type: PhantomData<T>,
}

pub fn create_async_task_interface<T: CubeMelonAsyncTaskInterface>(kind: u64) -> (r:
    CubeMelonAsyncTaskInterfaceImpl<T>)
    ensures
        r.kind == kind,
{
    CubeMelonAsyncTaskInterfaceImpl { kind, plugin_type: PhantomData }
}

impl<T: CubeMelonAsyncTaskInterface> CubeMelonAsyncTaskInterfaceImpl<T> {
    pub fn execute(&self, store: &mut InstanceStore<T>, plugin: CubeMelonPlugin,
        request: &CubeMelonTaskRequest,
        request_id: u64,
        notify: bool,) -> (r:
        CubeMelonPluginErrorCode)
        requires
            old(store).wf(),
        ensures
            final(store).wf(),
            plugin.id == 0 ==> r == CubeMelonPluginErrorCode::NullPointer && others_unchanged(old(store), final(store), -1),
            plugin.id != 0 && !resolves(old(store), plugin, self.kind) ==> r
                == CubeMelonPluginErrorCode::PluginNotFound && others_unchanged(old(store), final(store), -1),
            plugin.id != 0 && resolves(old(store), plugin, self.kind) ==> others_unchanged(
                old(store),
                final(store),
                old(store).slot(plugin.id),
            ) && old(store).plugin_at(old(store).slot(plugin.id)).execute_post(*request, request_id, notify, final(store).plugin_at(old(store).slot(plugin.id)), r),
    {
        if plugin.is_null() {
            return CubeMelonPluginErrorCode::NullPointer;
        }
        match store.get_mut(plugin, self.kind) {
            Some(p) => p.execute(request, request_id, notify),
            None => CubeMelonPluginErrorCode::PluginNotFound,
        }
    }

    pub fn cancel(&self, store: &mut InstanceStore<T>, plugin: CubeMelonPlugin, request_id: u64) -> (r:
        CubeMelonPluginErrorCode)
        requires
            old(store).wf(),
        ensures
            final(store).wf(),
            plugin.id == 0 ==> r == CubeMelonPluginErrorCode::NullPointer && others_unchanged(old(store), final(store), -1),
            plugin.id != 0 && !resolves(old(store), plugin, self.kind) ==> r
                == CubeMelonPluginErrorCode::PluginNotFound && others_unchanged(old(store), final(store), -1),
            plugin.id != 0 && resolves(old(store), plugin, self.kind) ==> others_unchanged(
                old(store),
                final(store),
                old(store).slot(plugin.id),
            ) && old(store).plugin_at(old(store).slot(plugin.id)).cancel_post(request_id, final(store).plugin_at(old(store).slot(plugin.id)), r),
    {
        if plugin.is_null() {
            return CubeMelonPluginErrorCode::NullPointer;
        }
        match store.get_mut(plugin, self.kind) {
            Some(p) => p.cancel(request_id),
            None => CubeMelonPluginErrorCode::PluginNotFound,
        }
    }
}

/// A resident background service with a six-state lifecycle. Its contract
/// is the lifecycle itself:
/// - `start`: Idle to Running, with a configuration;
/// - `suspend`: Running to Suspended;
/// - `resume`: Suspended to Running;
/// - `stop`: Running or Suspended to Completed;
/// - `reset`: Completed, Error or Cancelled to Idle, clearing the
///   configuration;
/// and anything else is refused with `InvalidState`, changing nothing.
pub trait CubeMelonResidentInterface {
    /// The status as the contracts see it.
    spec fn spec_status(&self) -> CubeMelonExecutionStatus;

    /// The configuration as the contracts see it.
    spec fn spec_config(&self) -> Option<String>;

    fn get_status(&self) -> (r: CubeMelonExecutionStatus)
        ensures
            r == self.spec_status(),
    ;

    /// The current configuration, if one is set.
    fn get_configuration(&self) -> (r: Option<String>)
        ensures
            r is Some == self.spec_config() is Some,
            r matches Some(c) ==> c@ == self.spec_config()->0@,
    ;

    /// Replaces the configuration while the service runs; the status stays.
    fn update_configuration(&mut self, config_json: Option<&str>) -> (r: CubeMelonPluginErrorCode)
        ensures
            final(self).spec_status() == old(self).spec_status(),
            config_json is None ==> r == CubeMelonPluginErrorCode::NullPointer,
    ;

    /// Idle to Running, with a configuration.
    fn start(&mut self, config_json: Option<&str>) -> (r: CubeMelonPluginErrorCode)
        ensures
            (r, final(self).spec_status()) == resident_start(old(self).spec_status(), config_json is Some),
            r == CubeMelonPluginErrorCode::Success ==> (final(self).spec_config() matches Some(c)
                && c@ == config_json->0@),
            r != CubeMelonPluginErrorCode::Success ==> final(self).spec_config() == old(self).spec_config(),
    ;

    /// Running to Suspended.
    fn suspend(&mut self) -> (r: CubeMelonPluginErrorCode)
        ensures
            (r, final(self).spec_status()) == resident_transition(old(self).spec_status(), ResidentCommand::Suspend),
            final(self).spec_config() == old(self).spec_config(),
    ;

    /// Suspended to Running.
    fn resume(&mut self) -> (r: CubeMelonPluginErrorCode)
        ensures
            (r, final(self).spec_status()) == resident_transition(old(self).spec_status(), ResidentCommand::Resume),
            final(self).spec_config() == old(self).spec_config(),
    ;

    /// Running or Suspended to Completed.
    fn stop(&mut self) -> (r: CubeMelonPluginErrorCode)
        ensures
            (r, final(self).spec_status()) == resident_transition(old(self).spec_status(), ResidentCommand::Stop),
            final(self).spec_config() == old(self).spec_config(),
    ;

    /// Completed, Error or Cancelled back to Idle, clearing the
    /// configuration.
    fn reset(&mut self) -> (r: CubeMelonPluginErrorCode)
        ensures
            (r, final(self).spec_status()) == resident_transition(old(self).spec_status(), ResidentCommand::Reset),
            r == CubeMelonPluginErrorCode::Success ==> final(self).spec_config() is None,
            r != CubeMelonPluginErrorCode::Success ==> final(self).spec_config() == old(self).spec_config(),
    ;
}

/// The resident table of plugin type `T`, for instances of tag `kind`.
pub struct CubeMelonResidentInterfaceImpl<T> {
    pub kind: u64,
    pub plugin_type: PhantomData<T>,
}

pub fn create_resident_interface<T: CubeMelonResidentInterface>(kind: u64) -> (r:
    CubeMelonResidentInterfaceImpl<T>)
    ensures
        r.kind == kind,
{
    CubeMelonResidentInterfaceImpl { kind, plugin_type: PhantomData }
}

/// The resident lifecycle operations a table forwards.
#[derive(Debug, Clone, Copy, PartialEq, Eq, Structural)]
pub enum ResidentCommand {
    Suspend,
    Resume,
    Stop,
    Reset,
}

/// How a lifecycle command changes the configuration: a successful reset
/// clears it, anything else keeps it.
pub open spec fn config_after(before: Option<String>, after: Option<String>, command: ResidentCommand, code: CubeMelonPluginErrorCode) -> bool {
    if command == ResidentCommand::Reset && code == CubeMelonPluginErrorCode::Success {
        after is None
    } else {
        after == before
    }
}

impl<T: CubeMelonResidentInterface> CubeMelonResidentInterfaceImpl<T> {
    /// The status of the instance; Error when the handle is null or names
    /// no instance of this table's type.
    pub fn get_status(&self, store: &InstanceStore<T>, plugin: CubeMelonPlugin) -> (r:
        CubeMelonExecutionStatus)
        requires
            store.wf(),
        ensures
            (plugin.id == 0 || !resolves(store, plugin, self.kind)) ==> r
                == CubeMelonExecutionStatus::Error,
            plugin.id != 0 && resolves(store, plugin, self.kind) ==> r == store.plugin_at(
                store.slot(plugin.id),
            ).spec_status(),
    {
        if plugin.is_null() {
            return CubeMelonExecutionStatus::Error;
        }
        match store.get(plugin, self.kind) {
            Some(p) => p.get_status(),
            None => CubeMelonExecutionStatus::Error,
        }
    }

    /// The configuration of the instance; none when the handle is null or
    /// names no instance of this table's type.
    pub fn get_configuration(&self, store: &InstanceStore<T>, plugin: CubeMelonPlugin) -> (r:
        Option<String>)
        requires
            store.wf(),
        ensures
            (plugin.id == 0 || !resolves(store, plugin, self.kind)) ==> r is None,
            plugin.id != 0 && resolves(store, plugin, self.kind) ==> (r is Some == store.plugin_at(
                store.slot(plugin.id),
            ).spec_config() is Some && (r matches Some(c) ==> c@ == store.plugin_at(
                store.slot(plugin.id),
            ).spec_config()->0@)),
    {
        if plugin.is_null() {
            return None;
        }
        match store.get(plugin, self.kind) {
            Some(p) => p.get_configuration(),
            None => None,
        }
    }

    pub fn update_configuration(
        &self,
        store: &mut InstanceStore<T>,
        plugin: CubeMelonPlugin,
        config_json: Option<&str>,
    ) -> (r: CubeMelonPluginErrorCode)
        requires
            old(store).wf(),
        ensures
            final(store).wf(),
            plugin.id == 0 ==> r == CubeMelonPluginErrorCode::NullPointer && others_unchanged(old(store), final(store), -1),
            plugin.id != 0 && !resolves(old(store), plugin, self.kind) ==> r
                == CubeMelonPluginErrorCode::PluginNotFound && others_unchanged(old(store), final(store), -1),
            plugin.id != 0 && resolves(old(store), plugin, self.kind) ==> others_unchanged(
                old(store),
                final(store),
                old(store).slot(plugin.id),
            ) && final(store).plugin_at(old(store).slot(plugin.id)).spec_status() == old(store).plugin_at(
                old(store).slot(plugin.id),
            ).spec_status() && (config_json is None ==> r == CubeMelonPluginErrorCode::NullPointer),
    {
        if plugin.is_null() {
            return CubeMelonPluginErrorCode::NullPointer;
        }
        match store.get_mut(plugin, self.kind) {
            Some(p) => p.update_configuration(config_json),
            None => CubeMelonPluginErrorCode::PluginNotFound,
        }
    }

    /// Starts the instance: the trait's transition from its current status.
    pub fn start(&self, store: &mut InstanceStore<T>, plugin: CubeMelonPlugin, config_json: Option<&str>) -> (r:
        CubeMelonPluginErrorCode)
        requires
            old(store).wf(),
        ensures
            final(store).wf(),
            plugin.id == 0 ==> r == CubeMelonPluginErrorCode::NullPointer && others_unchanged(old(store), final(store), -1),
            plugin.id != 0 && !resolves(old(store), plugin, self.kind) ==> r
                == CubeMelonPluginErrorCode::PluginNotFound && others_unchanged(old(store), final(store), -1),
            plugin.id != 0 && resolves(old(store), plugin, self.kind) ==> others_unchanged(
                old(store),
                final(store),
                old(store).slot(plugin.id),
            ) && (r, final(store).plugin_at(old(store).slot(plugin.id)).spec_status()) == resident_start(
                old(store).plugin_at(old(store).slot(plugin.id)).spec_status(),
                config_json is Some,
            ) && (r == CubeMelonPluginErrorCode::Success ==> (final(store).plugin_at(
                old(store).slot(plugin.id),
            ).spec_config() matches Some(c) && c@ == config_json->0@)) && (r
                != CubeMelonPluginErrorCode::Success ==> final(store).plugin_at(old(store).slot(plugin.id)).spec_config()
                == old(store).plugin_at(old(store).slot(plugin.id)).spec_config()),
    {
        if plugin.is_null() {
            return CubeMelonPluginErrorCode::NullPointer;
        }
        match store.get_mut(plugin, self.kind) {
            Some(p) => p.start(config_json),
            None => CubeMelonPluginErrorCode::PluginNotFound,
        }
    }

    /// Forwards one lifecycle command: the trait's transition from the
    /// instance's current status.
    pub fn command(&self, store: &mut InstanceStore<T>, plugin: CubeMelonPlugin, command: ResidentCommand) -> (r:
        CubeMelonPluginErrorCode)
        requires
            old(store).wf(),
        ensures
            final(store).wf(),
            plugin.id == 0 ==> r == CubeMelonPluginErrorCode::NullPointer && others_unchanged(old(store), final(store), -1),
            plugin.id != 0 && !resolves(old(store), plugin, self.kind) ==> r
                == CubeMelonPluginErrorCode::PluginNotFound && others_unchanged(old(store), final(store), -1),
            plugin.id != 0 && resolves(old(store), plugin, self.kind) ==> others_unchanged(
                old(store),
                final(store),
                old(store).slot(plugin.id),
            ) && (r, final(store).plugin_at(old(store).slot(plugin.id)).spec_status()) == resident_transition(
                old(store).plugin_at(old(store).slot(plugin.id)).spec_status(),
                command,
            ) && config_after(
                old(store).plugin_at(old(store).slot(plugin.id)).spec_config(),
                final(store).plugin_at(old(store).slot(plugin.id)).spec_config(),
                command,
                r,
            ),
    {
        if plugin.is_null() {
            return CubeMelonPluginErrorCode::NullPointer;
        }
        match store.get_mut(plugin, self.kind) {
            Some(p) => match command {
                ResidentCommand::Suspend => p.suspend(),
                ResidentCommand::Resume => p.resume(),
                ResidentCommand::Stop => p.stop(),
                ResidentCommand::Reset => p.reset(),
            },
            None => CubeMelonPluginErrorCode::PluginNotFound,
        }
    }

    pub fn suspend(&self, store: &mut InstanceStore<T>, plugin: CubeMelonPlugin) -> (r:
        CubeMelonPluginErrorCode)
        requires
            old(store).wf(),
        ensures
            final(store).wf(),
            plugin.id == 0 ==> r == CubeMelonPluginErrorCode::NullPointer && others_unchanged(old(store), final(store), -1),
            plugin.id != 0 && !resolves(old(store), plugin, self.kind) ==> r
                == CubeMelonPluginErrorCode::PluginNotFound && others_unchanged(old(store), final(store), -1),
            plugin.id != 0 && resolves(old(store), plugin, self.kind) ==> others_unchanged(
                old(store),
                final(store),
                old(store).slot(plugin.id),
            ) && (r, final(store).plugin_at(old(store).slot(plugin.id)).spec_status()) == resident_transition(
                old(store).plugin_at(old(store).slot(plugin.id)).spec_status(),
                ResidentCommand::Suspend,
            ) && config_after(
                old(store).plugin_at(old(store).slot(plugin.id)).spec_config(),
                final(store).plugin_at(old(store).slot(plugin.id)).spec_config(),
                ResidentCommand::Suspend,
                r,
            ),
    {
        self.command(store, plugin, ResidentCommand::Suspend)
    }

    pub fn resume(&self, store: &mut InstanceStore<T>, plugin: CubeMelonPlugin) -> (r:
        CubeMelonPluginErrorCode)
        requires
            old(store).wf(),
        ensures
            final(store).wf(),
            plugin.id == 0 ==> r == CubeMelonPluginErrorCode::NullPointer && others_unchanged(old(store), final(store), -1),
            plugin.id != 0 && !resolves(old(store), plugin, self.kind) ==> r
                == CubeMelonPluginErrorCode::PluginNotFound && others_unchanged(old(store), final(store), -1),
            plugin.id != 0 && resolves(old(store), plugin, self.kind) ==> others_unchanged(
                old(store),
                final(store),
                old(store).slot(plugin.id),
            ) && (r, final(store).plugin_at(old(store).slot(plugin.id)).spec_status()) == resident_transition(
                old(store).plugin_at(old(store).slot(plugin.id)).spec_status(),
                ResidentCommand::Resume,
            ) && config_after(
                old(store).plugin_at(old(store).slot(plugin.id)).spec_config(),
                final(store).plugin_at(old(store).slot(plugin.id)).spec_config(),
                ResidentCommand::Resume,
                r,
            ),
    {
        self.command(store, plugin, ResidentCommand::Resume)
    }

    pub fn stop(&self, store: &mut InstanceStore<T>, plugin: CubeMelonPlugin) -> (r:
        CubeMelonPluginErrorCode)
        requires
            old(store).wf(),
        ensures
            final(store).wf(),
            plugin.id == 0 ==> r == CubeMelonPluginErrorCode::NullPointer && others_unchanged(old(store), final(store), -1),
            plugin.id != 0 && !resolves(old(store), plugin, self.kind) ==> r
                == CubeMelonPluginErrorCode::PluginNotFound && others_unchanged(old(store), final(store), -1),
            plugin.id != 0 && resolves(old(store), plugin, self.kind) ==> others_unchanged(
                old(store),
                final(store),
                old(store).slot(plugin.id),
            ) && (r, final(store).plugin_at(old(store).slot(plugin.id)).spec_status()) == resident_transition(
                old(store).plugin_at(old(store).slot(plugin.id)).spec_status(),
                ResidentCommand::Stop,
            ) && config_after(
                old(store).plugin_at(old(store).slot(plugin.id)).spec_config(),
                final(store).plugin_at(old(store).slot(plugin.id)).spec_config(),
                ResidentCommand::Stop,
                r,
            ),
    {
        self.command(store, plugin, ResidentCommand::Stop)
    }

    pub fn reset(&self, store: &mut InstanceStore<T>, plugin: CubeMelonPlugin) -> (r:
        CubeMelonPluginErrorCode)
        requires
            old(store).wf(),
        ensures
            final(store).wf(),
            plugin.id == 0 ==> r == CubeMelonPluginErrorCode::NullPointer && others_unchanged(old(store), final(store), -1),
            plugin.id != 0 && !resolves(old(store), plugin, self.kind) ==> r
                == CubeMelonPluginErrorCode::PluginNotFound && others_unchanged(old(store), final(store), -1),
            plugin.id != 0 && resolves(old(store), plugin, self.kind) ==> others_unchanged(
                old(store),
                final(store),
                old(store).slot(plugin.id),
            ) && (r, final(store).plugin_at(old(store).slot(plugin.id)).spec_status()) == resident_transition(
                old(store).plugin_at(old(store).slot(plugin.id)).spec_status(),
                ResidentCommand::Reset,
            ) && config_after(
                old(store).plugin_at(old(store).slot(plugin.id)).spec_config(),
                final(store).plugin_at(old(store).slot(plugin.id)).spec_config(),
                ResidentCommand::Reset,
                r,
            ),
    {
        self.command(store, plugin, ResidentCommand::Reset)
    }
}

/// Scoped key/value persistence. Unknown keys are reported as
/// `PluginNotFound`; scopes an implementation does not keep are
/// `NotSupported`.
pub trait CubeMelonPluginStateInterface: Sized {
    open spec fn load_state_post(&self, scope: CubeMelonPluginStateScope, before: CubeMelonValue, after: CubeMelonValue, code: CubeMelonPluginErrorCode) -> bool {
        true
    }

    open spec fn save_state_post(&self, scope: CubeMelonPluginStateScope, data: Seq<u8>, after: Self, code: CubeMelonPluginErrorCode) -> bool {
        true
    }

    open spec fn format_name_post(&self, scope: CubeMelonPluginStateScope, name: Option<&'static str>) -> bool {
        true
    }

    open spec fn get_state_value_post(&self, scope: CubeMelonPluginStateScope, key: Seq<char>, before: CubeMelonValue, after: CubeMelonValue, code: CubeMelonPluginErrorCode) -> bool {
        true
    }

    open spec fn set_state_value_post(&self, scope: CubeMelonPluginStateScope, key: Seq<char>, data: Seq<u8>, after: Self, code: CubeMelonPluginErrorCode) -> bool {
        true
    }

    open spec fn list_state_keys_post(&self, scope: CubeMelonPluginStateScope, before: CubeMelonValue, after: CubeMelonValue, code: CubeMelonPluginErrorCode) -> bool {
        true
    }

    open spec fn clear_state_value_post(&self, scope: CubeMelonPluginStateScope, key: Seq<char>, after: Self, code: CubeMelonPluginErrorCode) -> bool {
        true
    }

    /// Loads the whole state of `scope` into `data`, which the caller
    /// releases.
    fn load_state(&self, scope: CubeMelonPluginStateScope, data: &mut CubeMelonValue, ledger: &mut AllocationLedger) -> (r: CubeMelonPluginErrorCode)
        ensures
            self.load_state_post(scope, *old(data), *final(data), r),
    ;

    /// Replaces the whole state of `scope` with the serialised `data`.
    fn save_state(&mut self, scope: CubeMelonPluginStateScope, data: &[u8]) -> (r: CubeMelonPluginErrorCode)
        ensures
            old(self).save_state_post(scope, data@, *final(self), r),
    ;

    /// Name of the serialisation format of `scope`, if it is kept.
    fn get_format_name(&self, scope: CubeMelonPluginStateScope) -> (r: Option<&'static str>)
        ensures
            self.format_name_post(scope, r),
    ;

    fn get_state_value(&self, scope: CubeMelonPluginStateScope, key: &str, value: &mut CubeMelonValue, ledger: &mut AllocationLedger) -> (r: CubeMelonPluginErrorCode)
        ensures
            self.get_state_value_post(scope, key@, *old(value), *final(value), r),
    ;

    fn set_state_value(&mut self, scope: CubeMelonPluginStateScope, key: &str, data: &[u8]) -> (r: CubeMelonPluginErrorCode)
        ensures
            old(self).set_state_value_post(scope, key@, data@, *final(self), r),
    ;

    fn list_state_keys(&self, scope: CubeMelonPluginStateScope, keys: &mut CubeMelonValue, ledger: &mut AllocationLedger) -> (r: CubeMelonPluginErrorCode)
        ensures
            self.list_state_keys_post(scope, *old(keys), *final(keys), r),
    ;

    fn clear_state_value(&mut self, scope: CubeMelonPluginStateScope, key: &str) -> (r: CubeMelonPluginErrorCode)
        ensures
            old(self).clear_state_value_post(scope, key@, *final(self), r),
    ;
}

/// The state table of plugin type `T`, for instances of tag `kind`. A
/// missing key or data buffer is a null pointer.
pub struct CubeMelonPluginStateInterfaceImpl<T> {
    pub kind: u64,
    pub plugin_type: PhantomData<T>,
}

pub fn create_plugin_state_interface<T: CubeMelonPluginStateInterface>(kind: u64) -> (r:
    CubeMelonPluginStateInterfaceImpl<T>)
    ensures
        r.kind == kind,
{
    CubeMelonPluginStateInterfaceImpl { kind, plugin_type: PhantomData }
}

impl<T: CubeMelonPluginStateInterface> CubeMelonPluginStateInterfaceImpl<T> {
    pub fn load_state(
        &self,
        store: &InstanceStore<T>,
        plugin: CubeMelonPlugin,
        scope: CubeMelonPluginStateScope,
        data: &mut CubeMelonValue,
        ledger: &mut AllocationLedger,
    ) -> (r: CubeMelonPluginErrorCode)
        requires
            store.wf(),
        ensures
            (plugin.id == 0) ==> r == CubeMelonPluginErrorCode::NullPointer && *final(data) == *old(data),
            plugin.id != 0 && !resolves(store, plugin, self.kind) ==> r == CubeMelonPluginErrorCode::PluginNotFound && *final(data) == *old(data),
            plugin.id != 0 && resolves(store, plugin, self.kind) ==> store.plugin_at(store.slot(plugin.id)).load_state_post(scope, *old(data), *final(data), r),
    {
        if plugin.is_null() {
            return CubeMelonPluginErrorCode::NullPointer;
        }
        match store.get(plugin, self.kind) {
            Some(p) => p.load_state(scope, data, ledger),
            None => CubeMelonPluginErrorCode::PluginNotFound,
        }
    }

    pub fn save_state(
        &self,
        store: &mut InstanceStore<T>,
        plugin: CubeMelonPlugin,
        scope: CubeMelonPluginStateScope,
        data: Option<&[u8]>,
    ) -> (r: CubeMelonPluginErrorCode)
        requires
            old(store).wf(),
        ensures
            final(store).wf(),
            (plugin.id == 0 || data is None) ==> r == CubeMelonPluginErrorCode::NullPointer && others_unchanged(old(store), final(store), -1),
            plugin.id != 0 && data is Some && !resolves(old(store), plugin, self.kind) ==> r == CubeMelonPluginErrorCode::PluginNotFound && others_unchanged(old(store), final(store), -1),
            plugin.id != 0 && data is Some && resolves(old(store), plugin, self.kind) ==> others_unchanged(old(store), final(store), old(store).slot(plugin.id)) && old(store).plugin_at(old(store).slot(plugin.id)).save_state_post(scope, data->0@, final(store).plugin_at(old(store).slot(plugin.id)), r),
    {
        if plugin.is_null() {
            return CubeMelonPluginErrorCode::NullPointer;
        }
        match data {
            Some(data_v) => match store.get_mut(plugin, self.kind) {
            Some(p) => p.save_state(scope, data_v),
            None => CubeMelonPluginErrorCode::PluginNotFound,
        },
            _ => CubeMelonPluginErrorCode::NullPointer,
        }
    }

    /// The format name; none when the handle does not resolve.
    pub fn get_format_name(
        &self,
        store: &InstanceStore<T>,
        plugin: CubeMelonPlugin,
        scope: CubeMelonPluginStateScope,
    ) -> (r: Option<&'static str>)
        requires
            store.wf(),
        ensures
            (plugin.id == 0) ==> r is None,
            plugin.id != 0 && !resolves(store, plugin, self.kind) ==> r is None,
            plugin.id != 0 && resolves(store, plugin, self.kind) ==> store.plugin_at(store.slot(plugin.id)).format_name_post(scope, r),
    {
        if plugin.is_null() {
            return None;
        }
        match store.get(plugin, self.kind) {
            Some(p) => p.get_format_name(scope),
            None => None,
        }
    }

    pub fn get_state_value(
        &self,
        store: &InstanceStore<T>,
        plugin: CubeMelonPlugin,
        scope: CubeMelonPluginStateScope,
        key: Option<&str>,
        value: &mut CubeMelonValue,
        ledger: &mut AllocationLedger,
    ) -> (r: CubeMelonPluginErrorCode)
        requires
            store.wf(),
        ensures
            (plugin.id == 0 || key is None) ==> r == CubeMelonPluginErrorCode::NullPointer && *final(value) == *old(value),
            plugin.id != 0 && key is Some && !resolves(store, plugin, self.kind) ==> r == CubeMelonPluginErrorCode::PluginNotFound && *final(value) == *old(value),
            plugin.id != 0 && key is Some && resolves(store, plugin, self.kind) ==> store.plugin_at(store.slot(plugin.id)).get_state_value_post(scope, key->0@, *old(value), *final(value), r),
    {
        if plugin.is_null() {
            return CubeMelonPluginErrorCode::NullPointer;
        }
        match key {
            Some(key_v) => match store.get(plugin, self.kind) {
            Some(p) => p.get_state_value(scope, key_v, value, ledger),
            None => CubeMelonPluginErrorCode::PluginNotFound,
        },
            _ => CubeMelonPluginErrorCode::NullPointer,
        }
    }

    pub fn set_state_value(
        &self,
        store: &mut InstanceStore<T>,
        plugin: CubeMelonPlugin,
        scope: CubeMelonPluginStateScope,
        key: Option<&str>,
        data: Option<&[u8]>,
    ) -> (r: CubeMelonPluginErrorCode)
        requires
            old(store).wf(),
        ensures
            final(store).wf(),
            (plugin.id == 0 || key is None || data is None) ==> r == CubeMelonPluginErrorCode::NullPointer && others_unchanged(old(store), final(store), -1),
            plugin.id != 0 && key is Some && data is Some && !resolves(old(store), plugin, self.kind) ==> r == CubeMelonPluginErrorCode::PluginNotFound && others_unchanged(old(store), final(store), -1),
            plugin.id != 0 && key is Some && data is Some && resolves(old(store), plugin, self.kind) ==> others_unchanged(old(store), final(store), old(store).slot(plugin.id)) && old(store).plugin_at(old(store).slot(plugin.id)).set_state_value_post(scope, key->0@, data->0@, final(store).plugin_at(old(store).slot(plugin.id)), r),
    {
        if plugin.is_null() {
            return CubeMelonPluginErrorCode::NullPointer;
        }
        match (key, data) {
            (Some(key_v), Some(data_v)) => match store.get_mut(plugin, self.kind) {
            Some(p) => p.set_state_value(scope, key_v, data_v),
            None => CubeMelonPluginErrorCode::PluginNotFound,
        },
            _ => CubeMelonPluginErrorCode::NullPointer,
        }
    }

    pub fn list_state_keys(
        &self,
        store: &InstanceStore<T>,
        plugin: CubeMelonPlugin,
        scope: CubeMelonPluginStateScope,
        keys: &mut CubeMelonValue,
        ledger: &mut AllocationLedger,
    ) -> (r: CubeMelonPluginErrorCode)
        requires
            store.wf(),
        ensures
            (plugin.id == 0) ==> r == CubeMelonPluginErrorCode::NullPointer && *final(keys) == *old(keys),
            plugin.id != 0 && !resolves(store, plugin, self.kind) ==> r == CubeMelonPluginErrorCode::PluginNotFound && *final(keys) == *old(keys),
            plugin.id != 0 && resolves(store, plugin, self.kind) ==> store.plugin_at(store.slot(plugin.id)).list_state_keys_post(scope, *old(keys), *final(keys), r),
    {
        if plugin.is_null() {
            return CubeMelonPluginErrorCode::NullPointer;
        }
        match store.get(plugin, self.kind) {
            Some(p) => p.list_state_keys(scope, keys, ledger),
            None => CubeMelonPluginErrorCode::PluginNotFound,
        }
    }

    pub fn clear_state_value(
        &self,
        store: &mut InstanceStore<T>,
        plugin: CubeMelonPlugin,
        scope: CubeMelonPluginStateScope,
        key: Option<&str>,
    ) -> (r: CubeMelonPluginErrorCode)
        requires
            old(store).wf(),
        ensures
            final(store).wf(),
            (plugin.id == 0 || key is None) ==> r == CubeMelonPluginErrorCode::NullPointer && others_unchanged(old(store), final(store), -1),
            plugin.id != 0 && key is Some && !resolves(old(store), plugin, self.kind) ==> r == CubeMelonPluginErrorCode::PluginNotFound && others_unchanged(old(store), final(store), -1),
            plugin.id != 0 && key is Some && resolves(old(store), plugin, self.kind) ==> others_unchanged(old(store), final(store), old(store).slot(plugin.id)) && old(store).plugin_at(old(store).slot(plugin.id)).clear_state_value_post(scope, key->0@, final(store).plugin_at(old(store).slot(plugin.id)), r),
    {
        if plugin.is_null() {
            return CubeMelonPluginErrorCode::NullPointer;
        }
        match key {
            Some(key_v) => match store.get_mut(plugin, self.kind) {
            Some(p) => p.clear_state_value(scope, key_v),
            None => CubeMelonPluginErrorCode::PluginNotFound,
        },
            _ => CubeMelonPluginErrorCode::NullPointer,
        }
    }
}

/// Catalogue queries and task dispatch across plugins.
pub trait CubeMelonPluginManagerInterface: Sized {
    open spec fn basic_info_post(&self, language: CubeMelonLanguage, before: CubeMelonPluginBasicInfoArray, after: CubeMelonPluginBasicInfoArray, code: CubeMelonPluginErrorCode) -> bool {
        true
    }

    open spec fn detailed_info_post(&self, target: CubeMelonUUID, language: CubeMelonLanguage, before: CubeMelonString, after: CubeMelonString, code: CubeMelonPluginErrorCode) -> bool {
        true
    }

    open spec fn find_post(&self, task_json: Seq<u8>, before: CubeMelonUUIDArray, after: CubeMelonUUIDArray, code: CubeMelonPluginErrorCode) -> bool {
        true
    }

    open spec fn alive_post(&self, target: CubeMelonUUID, alive: bool) -> bool {
        true
    }

    open spec fn execute_task_post(&self, target: CubeMelonUUID, request: CubeMelonTaskRequest, before: CubeMelonTaskResult, after: Self, result: CubeMelonTaskResult, code: CubeMelonPluginErrorCode) -> bool {
        true
    }

    open spec fn execute_async_post(&self, target: CubeMelonUUID, request: CubeMelonTaskRequest, request_id: u64, notify: bool, after: Self, code: CubeMelonPluginErrorCode) -> bool {
        true
    }

    open spec fn cancel_async_post(&self, request_id: u64, after: Self, code: CubeMelonPluginErrorCode) -> bool {
        true
    }

    /// Basic information of every known plugin; the caller releases it.
    fn get_all_plugins_basic_info(&self, language: CubeMelonLanguage, out_infos: &mut CubeMelonPluginBasicInfoArray, ledger: &mut AllocationLedger) -> (r: CubeMelonPluginErrorCode)
        ensures
            self.basic_info_post(language, *old(out_infos), *final(out_infos), r),
    ;

    /// Detailed information of one plugin as JSON; the caller releases it.
    fn get_plugin_detailed_info(&self, target_uuid: CubeMelonUUID, language: CubeMelonLanguage, out_detailed_json: &mut CubeMelonString, ledger: &mut AllocationLedger) -> (r: CubeMelonPluginErrorCode)
        ensures
            self.detailed_info_post(target_uuid, language, *old(out_detailed_json), *final(out_detailed_json), r),
    ;

    /// Plugins able to run the task described by `task_json`.
    fn find_plugins_for_task(&self, task_json: &[u8], out_uuids: &mut CubeMelonUUIDArray, ledger: &mut AllocationLedger) -> (r: CubeMelonPluginErrorCode)
        ensures
            self.find_post(task_json@, *old(out_uuids), *final(out_uuids), r),
    ;

    fn is_plugin_alive(&self, target_uuid: CubeMelonUUID) -> (r: bool)
        ensures
            self.alive_post(target_uuid, r),
    ;

    fn execute_task(&mut self, target_uuid: CubeMelonUUID, request: &CubeMelonTaskRequest, result: &mut CubeMelonTaskResult) -> (r: CubeMelonPluginErrorCode)
        ensures
            old(self).execute_task_post(target_uuid, *request, *old(result), *final(self), *final(result), r),
    ;

    fn execute_async_task(&mut self, target_uuid: CubeMelonUUID, request: &CubeMelonTaskRequest, request_id: u64, notify: bool) -> (r: CubeMelonPluginErrorCode)
        ensures
            old(self).execute_async_post(target_uuid, *request, request_id, notify, *final(self), r),
    ;

    fn cancel_async_task(&mut self, request_id: u64) -> (r: CubeMelonPluginErrorCode)
        ensures
            old(self).cancel_async_post(request_id, *final(self), r),
    ;
}

/// The manager table of plugin type `T`, for instances of tag `kind`.
pub struct CubeMelonPluginManagerInterfaceImpl<T> {
    pub kind: u64,
    pub plugin_type: PhantomData<T>,
}

pub fn create_plugin_manager_interface<T: CubeMelonPluginManagerInterface>(kind: u64) -> (r:
    CubeMelonPluginManagerInterfaceImpl<T>)
    ensures
        r.kind == kind,
{
    CubeMelonPluginManagerInterfaceImpl { kind, plugin_type: PhantomData }
}

impl<T: CubeMelonPluginManagerInterface> CubeMelonPluginManagerInterfaceImpl<T> {
    pub fn get_all_plugins_basic_info(
        &self,
        store: &InstanceStore<T>,
        plugin: CubeMelonPlugin,
        language: CubeMelonLanguage,
        out_infos: &mut CubeMelonPluginBasicInfoArray,
        ledger: &mut AllocationLedger,
    ) -> (r: CubeMelonPluginErrorCode)
        requires
            store.wf(),
        ensures
            (plugin.id == 0) ==> r == CubeMelonPluginErrorCode::NullPointer && *final(out_infos) == *old(out_infos),
            plugin.id != 0 && !resolves(store, plugin, self.kind) ==> r == CubeMelonPluginErrorCode::PluginNotFound && *final(out_infos) == *old(out_infos),
            plugin.id != 0 && resolves(store, plugin, self.kind) ==> store.plugin_at(store.slot(plugin.id)).basic_info_post(language, *old(out_infos), *final(out_infos), r),
    {
        if plugin.is_null() {
            return CubeMelonPluginErrorCode::NullPointer;
        }
        match store.get(plugin, self.kind) {
            Some(p) => p.get_all_plugins_basic_info(language, out_infos, ledger),
            None => CubeMelonPluginErrorCode::PluginNotFound,
        }
    }

    pub fn get_plugin_detailed_info(
        &self,
        store: &InstanceStore<T>,
        plugin: CubeMelonPlugin,
        target_uuid: CubeMelonUUID,
        language: CubeMelonLanguage,
        out_detailed_json: &mut CubeMelonString,
        ledger: &mut AllocationLedger,
    ) -> (r: CubeMelonPluginErrorCode)
        requires
            store.wf(),
        ensures
            (plugin.id == 0) ==> r == CubeMelonPluginErrorCode::NullPointer && *final(out_detailed_json) == *old(out_detailed_json),
            plugin.id != 0 && !resolves(store, plugin, self.kind) ==> r == CubeMelonPluginErrorCode::PluginNotFound && *final(out_detailed_json) == *old(out_detailed_json),
            plugin.id != 0 && resolves(store, plugin, self.kind) ==> store.plugin_at(store.slot(plugin.id)).detailed_info_post(target_uuid, language, *old(out_detailed_json), *final(out_detailed_json), r),
    {
        if plugin.is_null() {
            return CubeMelonPluginErrorCode::NullPointer;
        }
        match store.get(plugin, self.kind) {
            Some(p) => p.get_plugin_detailed_info(target_uuid, language, out_detailed_json, ledger),
            None => CubeMelonPluginErrorCode::PluginNotFound,
        }
    }

    pub fn find_plugins_for_task(
        &self,
        store: &InstanceStore<T>,
        plugin: CubeMelonPlugin,
        task_json: Option<&[u8]>,
        out_uuids: &mut CubeMelonUUIDArray,
        ledger: &mut AllocationLedger,
    ) -> (r: CubeMelonPluginErrorCode)
        requires
            store.wf(),
        ensures
            (plugin.id == 0 || task_json is None) ==> r == CubeMelonPluginErrorCode::NullPointer && *final(out_uuids) == *old(out_uuids),
            plugin.id != 0 && task_json is Some && !resolves(store, plugin, self.kind) ==> r == CubeMelonPluginErrorCode::PluginNotFound && *final(out_uuids) == *old(out_uuids),
            plugin.id != 0 && task_json is Some && resolves(store, plugin, self.kind) ==> store.plugin_at(store.slot(plugin.id)).find_post(task_json->0@, *old(out_uuids), *final(out_uuids), r),
    {
        if plugin.is_null() {
            return CubeMelonPluginErrorCode::NullPointer;
        }
        match task_json {
            Some(task_json_v) => match store.get(plugin, self.kind) {
            Some(p) => p.find_plugins_for_task(task_json_v, out_uuids, ledger),
            None => CubeMelonPluginErrorCode::PluginNotFound,
        },
            _ => CubeMelonPluginErrorCode::NullPointer,
        }
    }

    /// Liveness of a target; false when the handle does not resolve.
    pub fn is_plugin_alive(
        &self,
        store: &InstanceStore<T>,
        plugin: CubeMelonPlugin,
        target_uuid: CubeMelonUUID,
    ) -> (r: bool)
        requires
            store.wf(),
        ensures
            (plugin.id == 0) ==> r == false,
            plugin.id != 0 && !resolves(store, plugin, self.kind) ==> r == false,
            plugin.id != 0 && resolves(store, plugin, self.kind) ==> store.plugin_at(store.slot(plugin.id)).alive_post(target_uuid, r),
    {
        if plugin.is_null() {
            return false;
        }
        match store.get(plugin, self.kind) {
            Some(p) => p.is_plugin_alive(target_uuid),
            None => false,
        }
    }

    pub fn execute_async_task(
        &self,
        store: &mut InstanceStore<T>,
        plugin: CubeMelonPlugin,
        target_uuid: CubeMelonUUID,
        request: &CubeMelonTaskRequest,
        request_id: u64,
        notify: bool,
    ) -> (r: CubeMelonPluginErrorCode)
        requires
            old(store).wf(),
        ensures
            final(store).wf(),
            (plugin.id == 0) ==> r == CubeMelonPluginErrorCode::NullPointer && others_unchanged(old(store), final(store), -1),
            plugin.id != 0 && !resolves(old(store), plugin, self.kind) ==> r == CubeMelonPluginErrorCode::PluginNotFound && others_unchanged(old(store), final(store), -1),
            plugin.id != 0 && resolves(old(store), plugin, self.kind) ==> others_unchanged(old(store), final(store), old(store).slot(plugin.id)) && old(store).plugin_at(old(store).slot(plugin.id)).execute_async_post(target_uuid, *request, request_id, notify, final(store).plugin_at(old(store).slot(plugin.id)), r),
    {
        if plugin.is_null() {
            return CubeMelonPluginErrorCode::NullPointer;
        }
        match store.get_mut(plugin, self.kind) {
            Some(p) => p.execute_async_task(target_uuid, request, request_id, notify),
            None => CubeMelonPluginErrorCode::PluginNotFound,
        }
    }

    pub fn cancel_async_task(
        &self,
        store: &mut InstanceStore<T>,
        plugin: CubeMelonPlugin,
        request_id: u64,
    ) -> (r: CubeMelonPluginErrorCode)
        requires
            old(store).wf(),
        ensures
            final(store).wf(),
            (plugin.id == 0) ==> r == CubeMelonPluginErrorCode::NullPointer && others_unchanged(old(store), final(store), -1),
            plugin.id != 0 && !resolves(old(store), plugin, self.kind) ==> r == CubeMelonPluginErrorCode::PluginNotFound && others_unchanged(old(store), final(store), -1),
            plugin.id != 0 && resolves(old(store), plugin, self.kind) ==> others_unchanged(old(store), final(store), old(store).slot(plugin.id)) && old(store).plugin_at(old(store).slot(plugin.id)).cancel_async_post(request_id, final(store).plugin_at(old(store).slot(plugin.id)), r),
    {
        if plugin.is_null() {
            return CubeMelonPluginErrorCode::NullPointer;
        }
        match store.get_mut(plugin, self.kind) {
            Some(p) => p.cancel_async_task(request_id),
            None => CubeMelonPluginErrorCode::PluginNotFound,
        }
    }

    /// Synchronous dispatch; any failure is recorded in `result` as status
    /// Error with the failing code.
    pub fn execute_task(
        &self,
        store: &mut InstanceStore<T>,
        plugin: CubeMelonPlugin,
        target_uuid: CubeMelonUUID,
        request: &CubeMelonTaskRequest,
        result: &mut CubeMelonTaskResult,
    ) -> (r: CubeMelonPluginErrorCode)
        requires
            old(store).wf(),
        ensures
            final(store).wf(),
            plugin.id == 0 ==> r == CubeMelonPluginErrorCode::NullPointer && others_unchanged(
                old(store),
                final(store),
                -1,
            ) && *final(result) == marked_error(*old(result), r),
            plugin.id != 0 && !resolves(old(store), plugin, self.kind) ==> r
                == CubeMelonPluginErrorCode::PluginNotFound && others_unchanged(old(store), final(store), -1)
                && *final(result) == marked_error(*old(result), r),
            plugin.id != 0 && resolves(old(store), plugin, self.kind) ==> others_unchanged(
                old(store),
                final(store),
                old(store).slot(plugin.id),
            ) && exists|mid: CubeMelonTaskResult|
                #[trigger] old(store).plugin_at(old(store).slot(plugin.id)).execute_task_post(
                    target_uuid,
                    *request,
                    *old(result),
                    final(store).plugin_at(old(store).slot(plugin.id)),
                    mid,
                    r,
                ) && *final(result) == (if r == CubeMelonPluginErrorCode::Success {
                    mid
                } else {
                    marked_error(mid, r)
                }),
    {
        if plugin.is_null() {
            result.mark_error(CubeMelonPluginErrorCode::NullPointer);
            return CubeMelonPluginErrorCode::NullPointer;
        }
        let code = match store.get_mut(plugin, self.kind) {
            Some(p) => p.execute_task(target_uuid, request, result),
            None => CubeMelonPluginErrorCode::PluginNotFound,
        };
        let ghost mid = *result;
        if code != CubeMelonPluginErrorCode::Success {
            result.mark_error(code);
        }
        proof {
            if resolves(old(store), plugin, self.kind) {
                assert(old(store).plugin_at(old(store).slot(plugin.id)).execute_task_post(
                    target_uuid,
                    *request,
                    *old(result),
                    store.plugin_at(old(store).slot(plugin.id)),
                    mid,
                    code,
                ));
            }
        }
        code
    }
}

} // verus!
