//! Plugin discovery and loading. Opening libraries and calling into them is
//! the host's outside work; the decisions live here: which files are
//! candidates, how a probe proceeds and fails, which candidates are kept,
//! which plugin a user names, and which modules are loaded.

use vstd::prelude::*;
use vstd::string::*;
use crate::error::CubeMelonPluginErrorCode;
use crate::instance::CubeMelonPlugin;
use crate::text::{str_equals};
use crate::types::{CubeMelonUUID, CubeMelonVersion};

verus! {

/// What the host knows of a discovered plugin.
#[derive(Debug)]
pub struct PluginInfo {
    pub uuid: CubeMelonUUID,
    pub version: CubeMelonVersion,
    pub supported_types: u64,
    pub name: String,
    pub description: String,
    /// Filesystem path of the module.
    pub path: String,
}

impl PluginInfo {
    pub fn clone_info(&self) -> (r: PluginInfo)
        ensures
            r.uuid == self.uuid,
            r.version == self.version,
            r.supported_types == self.supported_types,
            r.name@ == self.name@,
            r.description@ == self.description@,
            r.path@ == self.path@,
    {
        PluginInfo {
            uuid: self.uuid,
            version: self.version,
            supported_types: self.supported_types,
            name: self.name.clone(),
            description: self.description.clone(),
            path: self.path.clone(),
        }
    }
}

/// Whether a file name ends in `.` followed by `extension`.
pub open spec fn has_extension(file_name: Seq<char>, extension: Seq<char>) -> bool {
    &&& file_name.len() > extension.len()
    &&& file_name[file_name.len() - extension.len() - 1] == '.'
    &&& file_name.subrange(file_name.len() - extension.len(), file_name.len() as int) == extension
}

/// Whether `file_name` is a shared library by the platform's extension
/// (`so`, `dylib` or `dll`).
pub fn is_library_file(file_name: &str, extension: &str) -> (r: bool)
    ensures
        r == has_extension(file_name@, extension@),
{
    let n = file_name.unicode_len();
    let m = extension.unicode_len();
    if n <= m {
        return false;
    }
    if file_name.get_char(n - m - 1) != '.' {
        return false;
    }
    let tail = file_name.substring_char(n - m, n);
    str_equals(tail, extension)
}

/// Where a probe stands.
#[derive(Debug, Clone, Copy, PartialEq, Eq, Structural)]
pub enum ProbePhase {
    ResolvingSymbols,
    NegotiatingBasic,
    CreatingInstance,
    ReadingMetadata,
    DestroyingInstance,
    Finished,
}

/// What the host observed after performing the probe's last action.
#[derive(Debug)]
pub enum ProbeEvent {
    /// Which of the three mandatory entry points were found.
    Symbols { negotiate: bool, create: bool, destroy: bool },
    /// Result of negotiating Basic at the current version, and whether a
    /// table came back.
    Negotiated { code: CubeMelonPluginErrorCode, table: bool },
    /// The throwaway instance (null if creation failed).
    Created { instance: CubeMelonPlugin },
    /// Metadata read from the Basic table; a null name or description is
    /// `None`.
    Metadata {
        uuid: CubeMelonUUID,
        version: CubeMelonVersion,
        supported_types: u64,
        name: Option<String>,
        description: Option<String>,
    },
    /// The throwaway instance was destroyed.
    Destroyed,
}

/// The next thing the host must do for a probe.
#[derive(Debug)]
pub enum ProbeAction {
    ResolveSymbols,
    /// Negotiate Basic (the empty mask) at the current interface version.
    NegotiateBasic,
    CreateInstance,
    ReadMetadata { instance: CubeMelonPlugin },
    DestroyInstance { instance: CubeMelonPlugin },
    /// Close the probe-only mapping and report.
    Finish { outcome: Result<PluginInfo, CubeMelonPluginErrorCode> },
}

/// The decisions of one probe of one candidate module.
#[derive(Debug)]
pub struct ProbeSession {
    pub phase: ProbePhase,
    pub path: String,
    pub instance: CubeMelonPlugin,
    pub found: Option<PluginInfo>,
}

/// The text of an optional string, or `default` when it is absent.
pub open spec fn text_or(text: Option<String>, default: Seq<char>) -> Seq<char> {
    match text {
        Some(t) => t@,
        None => default,
    }
}

/// A probe finishes with a descriptor only after its instance is destroyed.
pub open spec fn finish_is_clean(phase: ProbePhase, action: ProbeAction) -> bool {
    (action matches ProbeAction::Finish { outcome } && outcome is Ok) ==> phase
        == ProbePhase::DestroyingInstance
}

impl ProbeSession {
    /// Begins probing the module at `path`.
    pub fn start(path: String) -> (r: (ProbeSession, ProbeAction))
        ensures
            r.0.phase == ProbePhase::ResolvingSymbols,
            r.0.path@ == path@,
            r.0.found is None,
            r.1 is ResolveSymbols,
    {
        (
            ProbeSession { phase: ProbePhase::ResolvingSymbols, path, instance: CubeMelonPlugin::null(), found: None },
            ProbeAction::ResolveSymbols,
        )
    }

    fn fail(&mut self, code: CubeMelonPluginErrorCode) -> (r: ProbeAction)
        ensures
            final(self).phase == ProbePhase::Finished,
            r matches ProbeAction::Finish { outcome } && outcome == Err::<PluginInfo, _>(code),
            final(self).instance == old(self).instance,
            final(self).path == old(self).path,
            final(self).found == old(self).found,
    {
        self.phase = ProbePhase::Finished;
        ProbeAction::Finish { outcome: Err(code) }
    }

    /// Advances the probe with what the host observed.
    ///
    /// - a missing entry point fails with `PluginLoadFailed`;
    /// - a failed negotiation fails with its own code, and a successful one
    ///   without a table with `InterfaceNotSupported`;
    /// - a null instance fails with `PluginLoadFailed`;
    /// - once an instance exists it is always destroyed before the probe
    ///   finishes, and only then is the descriptor reported;
    /// - an event that does not fit the phase fails with `InvalidState`,
    ///   destroying a live instance first.
    pub fn on_event(&mut self, event: ProbeEvent) -> (r: ProbeAction)
        requires
            old(self).phase != ProbePhase::Finished,
        ensures
            finish_is_clean(old(self).phase, r),
            (old(self).phase == ProbePhase::ReadingMetadata) ==> (r matches ProbeAction::DestroyInstance { instance } && instance == old(self).instance)
                && final(self).phase == ProbePhase::DestroyingInstance,
            final(self).path == old(self).path,
            !(old(self).phase == ProbePhase::CreatingInstance && event is Created) ==> final(self).instance == old(self).instance,
            (old(self).phase != ProbePhase::ReadingMetadata && old(self).phase != ProbePhase::DestroyingInstance) ==> final(self).found == old(self).found,
            (old(self).phase == ProbePhase::DestroyingInstance && !(event is Destroyed)) ==> final(self).found == old(self).found
                && final(self).phase == ProbePhase::DestroyingInstance && (r matches ProbeAction::DestroyInstance { instance } && instance == old(self).instance),
            event matches ProbeEvent::Symbols { negotiate, create, destroy } ==> old(self).phase == ProbePhase::ResolvingSymbols ==> (
                if negotiate && create && destroy {
                    r is NegotiateBasic && final(self).phase == ProbePhase::NegotiatingBasic
                } else {
                    r matches ProbeAction::Finish { outcome } && outcome == Err::<PluginInfo, _>(CubeMelonPluginErrorCode::PluginLoadFailed)
                }),
            event matches ProbeEvent::Negotiated { code, table } ==> old(self).phase == ProbePhase::NegotiatingBasic ==> (
                if code != CubeMelonPluginErrorCode::Success {
                    r matches ProbeAction::Finish { outcome } && outcome == Err::<PluginInfo, _>(code)
                } else if !table {
                    r matches ProbeAction::Finish { outcome } && outcome == Err::<PluginInfo, _>(CubeMelonPluginErrorCode::InterfaceNotSupported)
                } else {
                    r is CreateInstance && final(self).phase == ProbePhase::CreatingInstance
                }),
            event matches ProbeEvent::Created { instance } ==> old(self).phase == ProbePhase::CreatingInstance ==> (
                if instance.id == 0 {
                    r matches ProbeAction::Finish { outcome } && outcome == Err::<PluginInfo, _>(CubeMelonPluginErrorCode::PluginLoadFailed)
                } else {
                    r matches ProbeAction::ReadMetadata { instance: i } && i == instance
                        && final(self).phase == ProbePhase::ReadingMetadata && final(self).instance == instance
                }),
            event matches ProbeEvent::Metadata { uuid, version, supported_types, name, description }
                ==> old(self).phase == ProbePhase::ReadingMetadata ==> (final(self).found matches Some(info)
                && info.uuid == uuid && info.version == version && info.supported_types == supported_types
                && info.name@ == text_or(name, "Unknown Plugin"@)
                && info.description@ == text_or(description, "No description"@)
                && info.path@ == old(self).path@),
            (old(self).phase == ProbePhase::DestroyingInstance && event is Destroyed) ==> (
                r matches ProbeAction::Finish { outcome } && match outcome {
                    Ok(info) => old(self).found == Some(info),
                    Err(e) => old(self).found is None && e == CubeMelonPluginErrorCode::InvalidState,
                }),
            final(self).phase == ProbePhase::Finished <==> r is Finish,
    {
        match (self.phase, event) {
            (ProbePhase::ResolvingSymbols, ProbeEvent::Symbols { negotiate, create, destroy }) => {
                if negotiate && create && destroy {
                    self.phase = ProbePhase::NegotiatingBasic;
                    ProbeAction::NegotiateBasic
                } else {
                    self.fail(CubeMelonPluginErrorCode::PluginLoadFailed)
                }
            },
            (ProbePhase::NegotiatingBasic, ProbeEvent::Negotiated { code, table }) => {
                if code != CubeMelonPluginErrorCode::Success {
                    self.fail(code)
                } else if !table {
                    self.fail(CubeMelonPluginErrorCode::InterfaceNotSupported)
                } else {
                    self.phase = ProbePhase::CreatingInstance;
                    ProbeAction::CreateInstance
                }
            },
            (ProbePhase::CreatingInstance, ProbeEvent::Created { instance }) => {
                if instance.is_null() {
                    self.fail(CubeMelonPluginErrorCode::PluginLoadFailed)
                } else {
                    self.instance = instance;
                    self.phase = ProbePhase::ReadingMetadata;
                    ProbeAction::ReadMetadata { instance }
                }
            },
            (ProbePhase::ReadingMetadata, ProbeEvent::Metadata { uuid, version, supported_types, name, description }) => {
                let name = match name {
                    Some(n) => n,
                    None => String::from_str("Unknown Plugin"),
                };
                let description = match description {
                    Some(d) => d,
                    None => String::from_str("No description"),
                };
                self.found = Some(PluginInfo {
                    uuid,
                    version,
                    supported_types,
                    name,
                    description,
                    path: self.path.clone(),
                });
                self.phase = ProbePhase::DestroyingInstance;
                ProbeAction::DestroyInstance { instance: self.instance }
            },
            (ProbePhase::ReadingMetadata, _) => {
                self.found = None;
                self.phase = ProbePhase::DestroyingInstance;
                ProbeAction::DestroyInstance { instance: self.instance }
            },
            (ProbePhase::DestroyingInstance, ProbeEvent::Destroyed) => {
                self.phase = ProbePhase::Finished;
                match self.found.take() {
                    Some(info) => ProbeAction::Finish { outcome: Ok(info) },
                    None => ProbeAction::Finish { outcome: Err(CubeMelonPluginErrorCode::InvalidState) },
                }
            },
            (ProbePhase::DestroyingInstance, _) => {
                ProbeAction::DestroyInstance { instance: self.instance }
            },
            _ => self.fail(CubeMelonPluginErrorCode::InvalidState),
        }
    }
}

/// The descriptors among probe outcomes, in order.
pub open spec fn ok_payloads(outcomes: Seq<Result<PluginInfo, CubeMelonPluginErrorCode>>) -> Seq<PluginInfo>
    decreases outcomes.len(),
{
    if outcomes.len() == 0 {
        Seq::empty()
    } else {
        let rest = ok_payloads(outcomes.drop_last());
        match outcomes.last() {
            Ok(info) => rest.push(info),
            Err(_) => rest,
        }
    }
}

/// Collects the descriptors of a directory scan: every successful probe is
/// kept, in order and unchanged; every failed one is skipped, and the scan
/// goes on.
pub fn collect_descriptors(outcomes: Vec<Result<PluginInfo, CubeMelonPluginErrorCode>>) -> (r: Vec<PluginInfo>)
    ensures
        r@ == ok_payloads(outcomes@),
{
    let ghost all = outcomes@;
    let total = outcomes.len();
    let mut rest = outcomes;
    let ghost n = all.len();
    let mut reversed: Vec<Result<PluginInfo, CubeMelonPluginErrorCode>> = Vec::new();
    while rest.len() > 0
        invariant
            n == all.len(),
            n == total,
            rest@ == all.subrange(0, rest@.len() as int),
            rest@.len() + reversed@.len() == n,
            forall|j: int| 0 <= j < reversed@.len() ==> #[trigger] reversed@[j] == all[n - 1 - j],
        decreases rest@.len(),
    {
        let ghost k = rest@.len() - 1;
        let o = rest.pop().unwrap();
        assert(o == all[k]);
        reversed.push(o);
    }
    let mut kept: Vec<PluginInfo> = Vec::new();
    let mut taken: usize = 0;
    while reversed.len() > 0
        invariant
            n == all.len(),
            n == total,
            reversed@.len() + taken == n,
            forall|j: int| 0 <= j < reversed@.len() ==> #[trigger] reversed@[j] == all[n - 1 - j],
            kept@ == ok_payloads(all.subrange(0, taken as int)),
        decreases reversed@.len(),
    {
        let o = reversed.pop().unwrap();
        let ghost p = all.subrange(0, taken + 1);
        assert(p.drop_last() =~= all.subrange(0, taken as int));
        assert(o == all[taken as int]);
        assert(p.last() == o);
        match o {
            Ok(info) => {
                kept.push(info);
            },
            Err(_) => {},
        }
        taken = taken + 1;
    }
    assert(all.subrange(0, n as int) =~= all);
    kept
}

} // verus!
