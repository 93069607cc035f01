//! The host runtime's own state and the Manager operations that need no
//! call into a plugin module: the catalogue, detailed information, plugin
//! selection, liveness and the bookkeeping of asynchronous requests.

use vstd::prelude::*;
use vstd::string::*;
use vstd::utf8::valid_utf8;
use crate::async_tasks::AsyncTaskTable;
use crate::error::CubeMelonPluginErrorCode;
use crate::host_services::{effective_language, spec_effective_language};
use crate::host_state::HostSettings;
use crate::instance::remove_id;
use crate::loader::PluginInfo;
use crate::memory::{
    AllocationLedger, CubeMelonPluginBasicInfoArray, CubeMelonString, CubeMelonUUIDArray,
};
use crate::modules::ModuleRegistry;
use crate::structs::CubeMelonPluginBasicInfo;
use crate::text::{push_str, str_equals, str_from_utf8};
use crate::textfmt::{decimal_text, json_escape, push_decimal, push_json_escaped, parse_usize, spec_parse_usize};
use crate::types::{CubeMelonLanguage, CubeMelonUUID, CubeMelonVersion, uuid_text};

verus! {

/// `major.minor.patch` in decimal.
pub open spec fn version_text(v: CubeMelonVersion) -> Seq<char> {
    decimal_text(v.major as nat) + "."@ + decimal_text(v.minor as nat) + "."@ + decimal_text(
        v.patch as nat,
    )
}

/// The text of a version.
pub fn version_string(v: CubeMelonVersion) -> (r: String)
    ensures
        r@ == version_text(v),
{
    let mut s = String::new();
    push_decimal(&mut s, v.major as u64);
    push_str(&mut s, ".");
    push_decimal(&mut s, v.minor as u64);
    push_str(&mut s, ".");
    push_decimal(&mut s, v.patch as u64);
    proof {
        assert(s@ =~= version_text(v));
    }
    s
}

/// The detailed information of a plugin as a JSON object.
pub open spec fn detail_json(info: PluginInfo, loaded: bool) -> Seq<char> {
    "{\n  \"uuid\": \""@ + uuid_text(info.uuid.bytes@) + "\",\n  \"version\": \""@ + version_text(
        info.version,
    ) + "\",\n  \"supported_types\": "@ + decimal_text(info.supported_types as nat)
        + ",\n  \"name\": \""@ + json_escape(info.name@) + "\",\n  \"description\": \""@
        + json_escape(info.description@) + "\",\n  \"loaded\": "@ + (if loaded {
        "true"@
    } else {
        "false"@
    }) + ",\n  \"path\": \""@ + json_escape(info.path@) + "\"\n}"@
}

/// Whether a user's plugin identifier names `info`, by name or by the
/// hyphenated identity text.
pub open spec fn names_plugin(info: PluginInfo, id: Seq<char>) -> bool {
    info.name@ == id || uuid_text(info.uuid.bytes@) == id
}

/// The host runtime, over loaded modules of handle type `M`.
pub struct HostRuntime<M> {
    pub discovered_plugins: Vec<PluginInfo>,
    pub modules: ModuleRegistry<M>,
    pub settings: HostSettings,
    /// The language the host runs in.
    pub system_language: CubeMelonLanguage,
    pub async_tasks: AsyncTaskTable,
}

impl<M> HostRuntime<M> {
    /// A runtime with nothing discovered or loaded. Its language is the
    /// configured one, or `detected` when the configuration says `auto`.
    pub fn new(settings: HostSettings, detected: CubeMelonLanguage) -> (r: Self)
        ensures
            r.discovered_plugins@.len() == 0,
            r.modules.wf(),
            r.modules.uuids().len() == 0,
            r.system_language == spec_effective_language(settings.language@, detected),
            r.settings == settings,
            r.async_tasks.pending_ids().len() == 0,
    {
        let system_language = effective_language(settings.language.as_str(), detected);
        HostRuntime {
            discovered_plugins: Vec::new(),
            modules: ModuleRegistry::new(),
            settings,
            system_language,
            async_tasks: AsyncTaskTable::new(),
        }
    }

    /// Position of the first discovered plugin with identity `uuid`.
    pub fn plugin_index(&self, uuid: CubeMelonUUID) -> (r: Option<usize>)
        ensures
            r matches Some(i) ==> i < self.discovered_plugins@.len()
                && self.discovered_plugins@[i as int].uuid == uuid && forall|j: int|
                0 <= j < i ==> self.discovered_plugins@[j].uuid != uuid,
            r is None ==> forall|j: int|
                0 <= j < self.discovered_plugins@.len() ==> self.discovered_plugins@[j].uuid
                    != uuid,
    {
        let mut i: usize = 0;
        while i < self.discovered_plugins.len()
            invariant
                i <= self.discovered_plugins@.len(),
                forall|j: int| 0 <= j < i ==> self.discovered_plugins@[j].uuid != uuid,
            decreases self.discovered_plugins@.len() - i,
        {
            if self.discovered_plugins[i].uuid == uuid {
                return Some(i);
            }
            i = i + 1;
        }
        None
    }

    /// Picks the plugin a user names: a 1-based number into the catalogue,
    /// or else the first plugin whose name or identity text matches.
    pub fn find_plugin(&self, plugin_id: &str) -> (r: Result<usize, CubeMelonPluginErrorCode>)
        ensures
            spec_parse_usize(plugin_id@) matches Some(n) ==> r == (if n == 0 || n
                > self.discovered_plugins@.len() {
                Err::<usize, _>(CubeMelonPluginErrorCode::OutOfBounds)
            } else {
                Ok::<usize, CubeMelonPluginErrorCode>((n - 1) as usize)
            }),
            spec_parse_usize(plugin_id@) is None ==> match r {
                Ok(i) => i < self.discovered_plugins@.len() && names_plugin(
                    self.discovered_plugins@[i as int],
                    plugin_id@,
                ) && forall|j: int|
                    0 <= j < i ==> !names_plugin(self.discovered_plugins@[j], plugin_id@),
                Err(e) => e == CubeMelonPluginErrorCode::PluginNotFound && forall|j: int|
                    0 <= j < self.discovered_plugins@.len() ==> !names_plugin(
                        self.discovered_plugins@[j],
                        plugin_id@,
                    ),
            },
    {
        match parse_usize(plugin_id) {
            Some(n) => {
                if n == 0 || n > self.discovered_plugins.len() {
                    Err(CubeMelonPluginErrorCode::OutOfBounds)
                } else {
                    Ok(n - 1)
                }
            },
            None => {
                let mut i: usize = 0;
                while i < self.discovered_plugins.len()
                    invariant
                        spec_parse_usize(plugin_id@) is None,
                        i <= self.discovered_plugins@.len(),
                        forall|j: int|
                            0 <= j < i ==> !names_plugin(self.discovered_plugins@[j], plugin_id@),
                    decreases self.discovered_plugins@.len() - i,
                {
                    let p = &self.discovered_plugins[i];
                    let text = p.uuid.to_string();
                    if str_equals(p.name.as_str(), plugin_id) || str_equals(text.as_str(), plugin_id) {
                        return Ok(i);
                    }
                    i = i + 1;
                }
                Err(CubeMelonPluginErrorCode::PluginNotFound)
            },
        }
    }

    /// The JSON text of a plugin's detailed information; `PluginNotFound`
    /// for an identity not in the catalogue.
    pub fn detailed_info_json(&self, target_uuid: CubeMelonUUID) -> (r: Result<String, CubeMelonPluginErrorCode>)
        ensures
            match r {
                Ok(json) => exists|i: int|
                    0 <= i < self.discovered_plugins@.len() && self.discovered_plugins@[i].uuid
                        == target_uuid && json@ == detail_json(
                        self.discovered_plugins@[i],
                        self.modules.spec_is_loaded(target_uuid),
                    ),
                Err(e) => e == CubeMelonPluginErrorCode::PluginNotFound && forall|j: int|
                    0 <= j < self.discovered_plugins@.len() ==> self.discovered_plugins@[j].uuid
                        != target_uuid,
            },
    {
        let i = match self.plugin_index(target_uuid) {
            Some(i) => i,
            None => return Err(CubeMelonPluginErrorCode::PluginNotFound),
        };
        let info = &self.discovered_plugins[i];
        let loaded = self.modules.is_loaded(info.uuid);
        let mut s = String::new();
        push_str(&mut s, "{\n  \"uuid\": \"");
        let uuid_string = info.uuid.to_string();
        push_str(&mut s, uuid_string.as_str());
        push_str(&mut s, "\",\n  \"version\": \"");
        push_decimal(&mut s, info.version.major as u64);
        push_str(&mut s, ".");
        push_decimal(&mut s, info.version.minor as u64);
        push_str(&mut s, ".");
        push_decimal(&mut s, info.version.patch as u64);
        push_str(&mut s, "\",\n  \"supported_types\": ");
        push_decimal(&mut s, info.supported_types);
        push_str(&mut s, ",\n  \"name\": \"");
        push_json_escaped(&mut s, info.name.as_str());
        push_str(&mut s, "\",\n  \"description\": \"");
        push_json_escaped(&mut s, info.description.as_str());
        push_str(&mut s, "\",\n  \"loaded\": ");
        if loaded {
            push_str(&mut s, "true");
        } else {
            push_str(&mut s, "false");
        }
        push_str(&mut s, ",\n  \"path\": \"");
        push_json_escaped(&mut s, info.path.as_str());
        push_str(&mut s, "\"\n}");
        proof {
            let v = info.version;
            assert(s@ =~= detail_json(self.discovered_plugins@[i as int], loaded));
        }
        Ok(s)
    }

    /// Detailed information into an owned string for the caller; on
    /// failure the out-string is the null string.
    pub fn get_plugin_detailed_info(
        &self,
        target_uuid: CubeMelonUUID,
        out_detailed_json: &mut CubeMelonString,
        ledger: &mut AllocationLedger,
    ) -> (r: CubeMelonPluginErrorCode)
        requires
            old(ledger).wf(),
        ensures
            final(ledger).wf(),
            r == CubeMelonPluginErrorCode::Success || r == CubeMelonPluginErrorCode::PluginNotFound,
            r == CubeMelonPluginErrorCode::PluginNotFound <==> forall|j: int|
                0 <= j < self.discovered_plugins@.len() ==> self.discovered_plugins@[j].uuid
                    != target_uuid,
            r == CubeMelonPluginErrorCode::PluginNotFound ==> final(out_detailed_json).text is None,
            r == CubeMelonPluginErrorCode::Success ==> exists|i: int|
                0 <= i < self.discovered_plugins@.len() && self.discovered_plugins@[i].uuid
                    == target_uuid && (final(out_detailed_json).text matches Some(t) && t@
                    == detail_json(
                    self.discovered_plugins@[i],
                    self.modules.spec_is_loaded(target_uuid),
                )),
    {
        match self.detailed_info_json(target_uuid) {
            Ok(json) => {
                *out_detailed_json = CubeMelonString::from_string(json, ledger);
                CubeMelonPluginErrorCode::Success
            },
            Err(e) => {
                *out_detailed_json = CubeMelonString::empty();
                e
            },
        }
    }

    /// Basic information of every discovered plugin, in catalogue order,
    /// as an owned array for the caller. Names and descriptions are those
    /// resolved at discovery time.
    pub fn get_all_plugins_basic_info(&self, ledger: &mut AllocationLedger) -> (r:
        CubeMelonPluginBasicInfoArray)
        requires
            old(ledger).wf(),
        ensures
            final(ledger).wf(),
            r.infos@.len() == self.discovered_plugins@.len(),
            forall|i: int|
                0 <= i < r.infos@.len() ==> {
                    let a = #[trigger] r.infos@[i];
                    let b = self.discovered_plugins@[i];
                    &&& a.uuid == b.uuid
                    &&& a.version == b.version
                    &&& a.supported_types == b.supported_types
                    &&& a.name.text matches Some(n) && n@ == b.name@
                    &&& a.description.text matches Some(d) && d@ == b.description@
                },
    {
        let mut infos: Vec<CubeMelonPluginBasicInfo> = Vec::new();
        let mut i: usize = 0;
        while i < self.discovered_plugins.len()
            invariant
                ledger.wf(),
                i <= self.discovered_plugins@.len(),
                infos@.len() == i,
                forall|k: int|
                    0 <= k < i ==> {
                        let a = #[trigger] infos@[k];
                        let b = self.discovered_plugins@[k];
                        &&& a.uuid == b.uuid
                        &&& a.version == b.version
                        &&& a.supported_types == b.supported_types
                        &&& a.name.text matches Some(n) && n@ == b.name@
                        &&& a.description.text matches Some(d) && d@ == b.description@
                    },
            decreases self.discovered_plugins@.len() - i,
        {
            let p = &self.discovered_plugins[i];
            let name = CubeMelonString::from_string(p.name.clone(), ledger);
            let description = CubeMelonString::from_string(p.description.clone(), ledger);
            infos.push(CubeMelonPluginBasicInfo::new(p.uuid, p.version, name, description, p.supported_types));
            i = i + 1;
        }
        CubeMelonPluginBasicInfoArray::from_vec(infos, ledger)
    }

    /// Plugins for a task described in JSON. The description must be UTF-8;
    /// no matching rule is defined yet, so the answer is empty.
    pub fn find_plugins_for_task(&self, task_json: &[u8]) -> (r: (CubeMelonPluginErrorCode, CubeMelonUUIDArray))
        ensures
            !valid_utf8(task_json@) ==> r.0 == CubeMelonPluginErrorCode::Encoding,
            valid_utf8(task_json@) ==> r.0 == CubeMelonPluginErrorCode::Success,
            r.1.uuids@.len() == 0,
            r.1.free_uuid_array is None,
    {
        match str_from_utf8(task_json) {
            Some(_) => (CubeMelonPluginErrorCode::Success, CubeMelonUUIDArray::empty()),
            None => (CubeMelonPluginErrorCode::Encoding, CubeMelonUUIDArray::empty()),
        }
    }

    /// A plugin is alive while its module is loaded.
    pub fn is_plugin_alive(&self, target_uuid: CubeMelonUUID) -> (r: bool)
        ensures
            r == self.modules.spec_is_loaded(target_uuid),
    {
        self.modules.is_loaded(target_uuid)
    }

    /// Accepts an asynchronous request for a loaded target: it is recorded
    /// as pending. An unknown target is `PluginNotFound` and records
    /// nothing.
    pub fn submit_async_task(&mut self, target_uuid: CubeMelonUUID, request_id: u64) -> (r:
        CubeMelonPluginErrorCode)
        ensures
            !old(self).modules.spec_is_loaded(target_uuid) ==> r
                == CubeMelonPluginErrorCode::PluginNotFound && final(self).async_tasks.pending_ids()
                == old(self).async_tasks.pending_ids(),
            old(self).modules.spec_is_loaded(target_uuid) && !old(self).async_tasks.is_pending(
                request_id,
            ) ==> r == CubeMelonPluginErrorCode::Success && final(self).async_tasks.pending_ids()
                == old(self).async_tasks.pending_ids().push(request_id),
            old(self).modules.spec_is_loaded(target_uuid) && old(self).async_tasks.is_pending(
                request_id,
            ) ==> r == CubeMelonPluginErrorCode::InvalidParameter
                && final(self).async_tasks.pending_ids() == old(self).async_tasks.pending_ids(),
            final(self).modules == old(self).modules,
            final(self).discovered_plugins == old(self).discovered_plugins,
            final(self).settings == old(self).settings,
            final(self).system_language == old(self).system_language,
    {
        if !self.modules.is_loaded(target_uuid) {
            return CubeMelonPluginErrorCode::PluginNotFound;
        }
        self.async_tasks.submit(request_id)
    }

    /// Advisory cancellation of an asynchronous request; a request no
    /// longer pending is ignored.
    pub fn cancel_async_task(&mut self, request_id: u64) -> (r: CubeMelonPluginErrorCode)
        ensures
            r == CubeMelonPluginErrorCode::Success,
            final(self).async_tasks.pending_ids() == remove_id(
                old(self).async_tasks.pending_ids(),
                request_id,
            ),
            !old(self).async_tasks.is_pending(request_id) ==> final(self).async_tasks.pending_ids()
                == old(self).async_tasks.pending_ids(),
            final(self).modules == old(self).modules,
            final(self).discovered_plugins == old(self).discovered_plugins,
            final(self).settings == old(self).settings,
            final(self).system_language == old(self).system_language,
    {
        self.async_tasks.cancel(request_id)
    }
}

} // verus!
