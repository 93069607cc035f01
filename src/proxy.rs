//! The host proxy: a stand-in that plugins reach through the reverse
//! interface lookup and that forwards each call to the host object
//! currently registered as active. With none registered, every call fails
//! with `NotInitialized` and changes nothing (queries answer nothing).
//! Each operation's outcome is the registered host's own outcome.
//!
//! The host object is supplied by the embedding application: the host's
//! task dispatch calls into loaded modules and its state persistence
//! serialises TOML, both of which are that application's outside work.

use vstd::prelude::*;
use crate::error::CubeMelonPluginErrorCode;
use crate::interfaces::{CubeMelonPluginManagerInterface, CubeMelonPluginStateInterface};
use crate::memory::{
    AllocationLedger, CubeMelonPluginBasicInfoArray, CubeMelonString, CubeMelonUUIDArray,
    CubeMelonValue,
};
use crate::structs::{CubeMelonTaskRequest, CubeMelonTaskResult};
use crate::types::{CubeMelonLanguage, CubeMelonPluginStateScope, CubeMelonUUID};

verus! {

/// Forwards to the active host object `R`, if one is registered.
pub struct HostRuntimeProxy<R> {
    pub active: Option<R>,
}

impl<R> HostRuntimeProxy<R> {
    /// A proxy with no host object registered yet.
    pub fn new() -> (r: Self)
        ensures
            r.active is None,
    {
        HostRuntimeProxy { active: None }
    }

    /// Registers the active host object, replacing any earlier one.
    pub fn register(&mut self, host: R)
        ensures
            final(self).active == Some(host),
    {
        self.active = Some(host);
    }

    pub fn is_registered(&self) -> (r: bool)
        ensures
            r == self.active is Some,
    {
        self.active.is_some()
    }
}

impl<R: CubeMelonPluginManagerInterface> CubeMelonPluginManagerInterface for HostRuntimeProxy<R> {
    open spec fn basic_info_post(&self, language: CubeMelonLanguage, before: CubeMelonPluginBasicInfoArray, after: CubeMelonPluginBasicInfoArray, code: CubeMelonPluginErrorCode) -> bool {
        match self.active {
            None => code == CubeMelonPluginErrorCode::NotInitialized && after == before,
            Some(h) => h.basic_info_post(language, before, after, code),
        }
    }

    open spec fn detailed_info_post(&self, target: CubeMelonUUID, language: CubeMelonLanguage, before: CubeMelonString, after: CubeMelonString, code: CubeMelonPluginErrorCode) -> bool {
        match self.active {
            None => code == CubeMelonPluginErrorCode::NotInitialized && after == before,
            Some(h) => h.detailed_info_post(target,language, before, after, code),
        }
    }

    open spec fn find_post(&self, task_json: Seq<u8>, before: CubeMelonUUIDArray, after: CubeMelonUUIDArray, code: CubeMelonPluginErrorCode) -> bool {
        match self.active {
            None => code == CubeMelonPluginErrorCode::NotInitialized && after == before,
            Some(h) => h.find_post(task_json, before, after, code),
        }
    }

    open spec fn alive_post(&self, target: CubeMelonUUID, alive: bool) -> bool {
        match self.active {
            None => !alive,
            Some(h) => h.alive_post(target, alive),
        }
    }

    open spec fn execute_task_post(&self, target: CubeMelonUUID, request: CubeMelonTaskRequest, before: CubeMelonTaskResult, after: Self, result: CubeMelonTaskResult, code: CubeMelonPluginErrorCode) -> bool {
        match self.active {
            None => code == CubeMelonPluginErrorCode::NotInitialized && after.active is None && result == before,
            Some(h) => after.active matches Some(h2) && h.execute_task_post(target, request, before, h2, result, code),
        }
    }

    open spec fn execute_async_post(&self, target: CubeMelonUUID, request: CubeMelonTaskRequest, request_id: u64, notify: bool, after: Self, code: CubeMelonPluginErrorCode) -> bool {
        match self.active {
            None => code == CubeMelonPluginErrorCode::NotInitialized && after.active is None,
            Some(h) => after.active matches Some(h2) && h.execute_async_post(target,request,request_id,notify, h2, code),
        }
    }

    open spec fn cancel_async_post(&self, request_id: u64, after: Self, code: CubeMelonPluginErrorCode) -> bool {
        match self.active {
            None => code == CubeMelonPluginErrorCode::NotInitialized && after.active is None,
            Some(h) => after.active matches Some(h2) && h.cancel_async_post(request_id, h2, code),
        }
    }

    fn get_all_plugins_basic_info(
        &self,
        language: CubeMelonLanguage,
        out_infos: &mut CubeMelonPluginBasicInfoArray,
        ledger: &mut AllocationLedger,
    ) -> (r: CubeMelonPluginErrorCode) {
        match &self.active {
            Some(h) => h.get_all_plugins_basic_info(language, out_infos, ledger),
            None => CubeMelonPluginErrorCode::NotInitialized,
        }
    }

    fn get_plugin_detailed_info(
        &self,
        target_uuid: CubeMelonUUID,
        language: CubeMelonLanguage,
        out_detailed_json: &mut CubeMelonString,
        ledger: &mut AllocationLedger,
    ) -> (r: CubeMelonPluginErrorCode) {
        match &self.active {
            Some(h) => h.get_plugin_detailed_info(target_uuid, language, out_detailed_json, ledger),
            None => CubeMelonPluginErrorCode::NotInitialized,
        }
    }

    fn find_plugins_for_task(
        &self,
        task_json: &[u8],
        out_uuids: &mut CubeMelonUUIDArray,
        ledger: &mut AllocationLedger,
    ) -> (r: CubeMelonPluginErrorCode) {
        match &self.active {
            Some(h) => h.find_plugins_for_task(task_json, out_uuids, ledger),
            None => CubeMelonPluginErrorCode::NotInitialized,
        }
    }

    fn is_plugin_alive(&self, target_uuid: CubeMelonUUID) -> (r: bool) {
        match &self.active {
            Some(h) => h.is_plugin_alive(target_uuid),
            None => false,
        }
    }

    fn execute_task(
        &mut self,
        target_uuid: CubeMelonUUID,
        request: &CubeMelonTaskRequest,
        result: &mut CubeMelonTaskResult,
    ) -> (r: CubeMelonPluginErrorCode) {
        match &mut self.active {
            Some(h) => h.execute_task(target_uuid, request, result),
            None => CubeMelonPluginErrorCode::NotInitialized,
        }
    }

    fn execute_async_task(
        &mut self,
        target_uuid: CubeMelonUUID,
        request: &CubeMelonTaskRequest,
        request_id: u64,
        notify: bool,
    ) -> (r: CubeMelonPluginErrorCode) {
        match &mut self.active {
            Some(h) => h.execute_async_task(target_uuid, request, request_id, notify),
            None => CubeMelonPluginErrorCode::NotInitialized,
        }
    }

    fn cancel_async_task(&mut self, request_id: u64) -> (r: CubeMelonPluginErrorCode) {
        match &mut self.active {
            Some(h) => h.cancel_async_task(request_id),
            None => CubeMelonPluginErrorCode::NotInitialized,
        }
    }
}

impl<R: CubeMelonPluginStateInterface> CubeMelonPluginStateInterface for HostRuntimeProxy<R> {
    open spec fn load_state_post(&self, scope: CubeMelonPluginStateScope, before: CubeMelonValue, after: CubeMelonValue, code: CubeMelonPluginErrorCode) -> bool {
        match self.active {
            None => code == CubeMelonPluginErrorCode::NotInitialized && after == before,
            Some(h) => h.load_state_post(scope, before, after, code),
        }
    }

    open spec fn save_state_post(&self, scope: CubeMelonPluginStateScope, data: Seq<u8>, after: Self, code: CubeMelonPluginErrorCode) -> bool {
        match self.active {
            None => code == CubeMelonPluginErrorCode::NotInitialized && after.active is None,
            Some(h) => after.active matches Some(h2) && h.save_state_post(scope,data, h2, code),
        }
    }

    open spec fn format_name_post(&self, scope: CubeMelonPluginStateScope, name: Option<&'static str>) -> bool {
        match self.active {
            None => name is None,
            Some(h) => h.format_name_post(scope, name),
        }
    }

    open spec fn get_state_value_post(&self, scope: CubeMelonPluginStateScope, key: Seq<char>, before: CubeMelonValue, after: CubeMelonValue, code: CubeMelonPluginErrorCode) -> bool {
        match self.active {
            None => code == CubeMelonPluginErrorCode::NotInitialized && after == before,
            Some(h) => h.get_state_value_post(scope,key, before, after, code),
        }
    }

    open spec fn set_state_value_post(&self, scope: CubeMelonPluginStateScope, key: Seq<char>, data: Seq<u8>, after: Self, code: CubeMelonPluginErrorCode) -> bool {
        match self.active {
            None => code == CubeMelonPluginErrorCode::NotInitialized && after.active is None,
            Some(h) => after.active matches Some(h2) && h.set_state_value_post(scope,key,data, h2, code),
        }
    }

    open spec fn list_state_keys_post(&self, scope: CubeMelonPluginStateScope, before: CubeMelonValue, after: CubeMelonValue, code: CubeMelonPluginErrorCode) -> bool {
        match self.active {
            None => code == CubeMelonPluginErrorCode::NotInitialized && after == before,
            Some(h) => h.list_state_keys_post(scope, before, after, code),
        }
    }

    open spec fn clear_state_value_post(&self, scope: CubeMelonPluginStateScope, key: Seq<char>, after: Self, code: CubeMelonPluginErrorCode) -> bool {
        match self.active {
            None => code == CubeMelonPluginErrorCode::NotInitialized && after.active is None,
            Some(h) => after.active matches Some(h2) && h.clear_state_value_post(scope,key, h2, code),
        }
    }

    fn load_state(
        &self,
        scope: CubeMelonPluginStateScope,
        data: &mut CubeMelonValue,
        ledger: &mut AllocationLedger,
    ) -> (r: CubeMelonPluginErrorCode) {
        match &self.active {
            Some(h) => h.load_state(scope, data, ledger),
            None => CubeMelonPluginErrorCode::NotInitialized,
        }
    }

    fn save_state(&mut self, scope: CubeMelonPluginStateScope, data: &[u8]) -> (r: CubeMelonPluginErrorCode) {
        match &mut self.active {
            Some(h) => h.save_state(scope, data),
            None => CubeMelonPluginErrorCode::NotInitialized,
        }
    }

    fn get_format_name(&self, scope: CubeMelonPluginStateScope) -> (r: Option<&'static str>) {
        match &self.active {
            Some(h) => h.get_format_name(scope),
            None => None,
        }
    }

    fn get_state_value(
        &self,
        scope: CubeMelonPluginStateScope,
        key: &str,
        value: &mut CubeMelonValue,
        ledger: &mut AllocationLedger,
    ) -> (r: CubeMelonPluginErrorCode) {
        match &self.active {
            Some(h) => h.get_state_value(scope, key, value, ledger),
            None => CubeMelonPluginErrorCode::NotInitialized,
        }
    }

    fn set_state_value(
        &mut self,
        scope: CubeMelonPluginStateScope,
        key: &str,
        data: &[u8],
    ) -> (r: CubeMelonPluginErrorCode) {
        match &mut self.active {
            Some(h) => h.set_state_value(scope, key, data),
            None => CubeMelonPluginErrorCode::NotInitialized,
        }
    }

    fn list_state_keys(
        &self,
        scope: CubeMelonPluginStateScope,
        keys: &mut CubeMelonValue,
        ledger: &mut AllocationLedger,
    ) -> (r: CubeMelonPluginErrorCode) {
        match &self.active {
            Some(h) => h.list_state_keys(scope, keys, ledger),
            None => CubeMelonPluginErrorCode::NotInitialized,
        }
    }

    fn clear_state_value(&mut self, scope: CubeMelonPluginStateScope, key: &str) -> (r: CubeMelonPluginErrorCode) {
        match &mut self.active {
            Some(h) => h.clear_state_value(scope, key),
            None => CubeMelonPluginErrorCode::NotInitialized,
        }
    }
}

} // verus!
