use cubemelon::shell::{parse_command, ArgumentFor, ShellCommand};
use cubemelon::async_tasks::AsyncTaskTable;
use cubemelon::dispatch::{DispatchAction, DispatchEvent, DispatchSession, SINGLE_TASK_MASK};
use cubemelon::host_services::{
    effective_language, host_interface_lookup, language_from_lcid, language_from_locale,
    language_to_string, parse_language,
};
use cubemelon::host_state::{persist_outcome, HostSettings};
use cubemelon::interfaces::{get_plugin_interface, CubeMelonPluginManagerInterface, CubeMelonResidentInterface, ResidentCommand};
use cubemelon::loader::{collect_descriptors, is_library_file, PluginInfo, ProbeAction, ProbeEvent, ProbeSession};
use cubemelon::memory::CubeMelonPluginBasicInfoArray;
use cubemelon::modules::ModuleRegistry;
use cubemelon::negotiation::{negotiate, CapabilityTable};
use cubemelon::proxy::HostRuntimeProxy;
use cubemelon::resident::ResidentService;
use cubemelon::runtime::HostRuntime;
use cubemelon::simple_plugin::SimplePlugin;
use cubemelon::textfmt::parse_usize;
use cubemelon::types::{CubeMelonExecutionStatus, CubeMelonPluginStateScope};
use cubemelon::{
    AllocationLedger, CubeMelonLanguage, CubeMelonPlugin, CubeMelonPluginErrorCode, CubeMelonPluginType,
    CubeMelonString, CubeMelonTaskResult, CubeMelonUUID, CubeMelonVersion,
};

#[test]
fn negotiation_follows_the_advertised_mask() {
    let advertised = CubeMelonPluginType::SingleTask | CubeMelonPluginType::State;
    let mut out = Some(CapabilityTable::Manager);
    assert_eq!(negotiate(advertised, 0, 1, &mut out), CubeMelonPluginErrorCode::Success);
    assert_eq!(out, Some(CapabilityTable::Basic));
    assert_eq!(negotiate(advertised, 0x1, 1, &mut out), CubeMelonPluginErrorCode::Success);
    assert_eq!(out, Some(CapabilityTable::SingleTask));
    assert_eq!(negotiate(advertised, 0x8, 1, &mut out), CubeMelonPluginErrorCode::Success);
    assert_eq!(out, Some(CapabilityTable::State));
    assert_eq!(negotiate(advertised, 0x10, 1, &mut out), CubeMelonPluginErrorCode::InterfaceNotSupported);
    assert_eq!(out, None);
    assert_eq!(negotiate(advertised, 0x9, 1, &mut out), CubeMelonPluginErrorCode::InterfaceNotSupported);
    assert_eq!(out, None);
}

#[test]
fn negotiation_fails_closed_on_version() {
    for requested in [0u64, 0x1, 0x2, 0x4, 0x8, 0x10, 0x20] {
        let mut out = Some(CapabilityTable::Basic);
        assert_eq!(negotiate(u64::MAX, requested, 2, &mut out), CubeMelonPluginErrorCode::VersionMismatch);
        assert_eq!(out, None);
    }
}

#[test]
fn simple_plugin_negotiates_basic_only() {
    let mut out = None;
    assert_eq!(get_plugin_interface::<SimplePlugin>(0, 1, &mut out), CubeMelonPluginErrorCode::Success);
    assert_eq!(out, Some(CapabilityTable::Basic));
    assert_eq!(get_plugin_interface::<SimplePlugin>(1, 1, &mut out), CubeMelonPluginErrorCode::InterfaceNotSupported);
    assert_eq!(SimplePlugin::get_uuid().to_string(), "ac02f3d9-0354-4012-91d3-d8f5bddd5b23");
    assert_eq!(SimplePlugin::get_version(), CubeMelonVersion::new(1, 0, 0));
    assert_eq!(SimplePlugin::get_supported_types(), 0);
    let _ = SimplePlugin::new();
}

#[test]
fn resident_service_from_idle_only_starts() {
    for command in [ResidentCommand::Suspend, ResidentCommand::Resume, ResidentCommand::Stop, ResidentCommand::Reset] {
        let mut service = ResidentService::new();
        assert_eq!(service.apply(command), CubeMelonPluginErrorCode::InvalidState);
        assert_eq!(service.get_status(), CubeMelonExecutionStatus::Idle);
    }
    let mut service = ResidentService::new();
    assert_eq!(service.start(None), CubeMelonPluginErrorCode::NullPointer);
    assert_eq!(service.start(Some("{\"interval\":5}")), CubeMelonPluginErrorCode::Success);
    assert_eq!(service.get_status(), CubeMelonExecutionStatus::Running);
    assert_eq!(service.get_configuration(), Some("{\"interval\":5}".to_string()));
    assert_eq!(service.suspend(), CubeMelonPluginErrorCode::Success);
    assert_eq!(service.stop(), CubeMelonPluginErrorCode::Success);
    assert_eq!(service.get_status(), CubeMelonExecutionStatus::Completed);
    assert_eq!(service.reset(), CubeMelonPluginErrorCode::Success);
    assert_eq!(service.get_configuration(), None);
}

#[test]
fn cancelling_twice_is_harmless() {
    let mut table = AsyncTaskTable::new();
    assert_eq!(table.submit(11), CubeMelonPluginErrorCode::Success);
    assert_eq!(table.submit(12), CubeMelonPluginErrorCode::Success);
    assert_eq!(table.submit(11), CubeMelonPluginErrorCode::InvalidParameter);
    assert_eq!(table.cancel(11), CubeMelonPluginErrorCode::Success);
    assert!(!table.contains(11));
    assert_eq!(table.cancel(11), CubeMelonPluginErrorCode::Success);
    assert!(table.contains(12));
    assert!(table.complete(12));
    assert!(!table.complete(12));
}

fn run_probe(path: &str, symbols: (bool, bool, bool), uuid_byte: u8) -> Result<PluginInfo, CubeMelonPluginErrorCode> {
    let (mut session, mut action) = ProbeSession::start(path.to_string());
    loop {
        let event = match action {
            ProbeAction::ResolveSymbols => ProbeEvent::Symbols { negotiate: symbols.0, create: symbols.1, destroy: symbols.2 },
            ProbeAction::NegotiateBasic => ProbeEvent::Negotiated { code: CubeMelonPluginErrorCode::Success, table: true },
            ProbeAction::CreateInstance => ProbeEvent::Created { instance: CubeMelonPlugin { id: 1 } },
            ProbeAction::ReadMetadata { .. } => ProbeEvent::Metadata {
                uuid: CubeMelonUUID::from_bytes([uuid_byte; 16]),
                version: CubeMelonVersion::new(1, 0, 0),
                supported_types: 0,
                name: None,
                description: Some("d".to_string()),
            },
            ProbeAction::DestroyInstance { .. } => ProbeEvent::Destroyed,
            ProbeAction::Finish { outcome } => return outcome,
        };
        action = session.on_event(event);
    }
}

#[test]
fn scan_skips_a_library_missing_create_plugin() {
    let outcomes = vec![
        run_probe("plugins/a.so", (true, true, true), 1),
        run_probe("plugins/broken.so", (true, false, true), 2),
        run_probe("plugins/c.so", (true, true, true), 3),
    ];
    assert_eq!(outcomes[1].as_ref().err(), Some(&CubeMelonPluginErrorCode::PluginLoadFailed));
    let found = collect_descriptors(outcomes);
    assert_eq!(found.len(), 2);
    assert_eq!(found[0].name, "Unknown Plugin");
    assert_eq!(found[0].path, "plugins/a.so");
    assert_eq!(found[1].uuid, CubeMelonUUID::from_bytes([3; 16]));
}

#[test]
fn probe_surfaces_negotiation_codes() {
    let (mut session, _) = ProbeSession::start("x.so".to_string());
    let a = session.on_event(ProbeEvent::Symbols { negotiate: true, create: true, destroy: true });
    assert!(matches!(a, ProbeAction::NegotiateBasic));
    match session.on_event(ProbeEvent::Negotiated { code: CubeMelonPluginErrorCode::VersionMismatch, table: false }) {
        ProbeAction::Finish { outcome } => assert_eq!(outcome.err(), Some(CubeMelonPluginErrorCode::VersionMismatch)),
        _ => panic!("probe should finish"),
    }
    let (mut session, _) = ProbeSession::start("y.so".to_string());
    session.on_event(ProbeEvent::Symbols { negotiate: true, create: true, destroy: true });
    match session.on_event(ProbeEvent::Negotiated { code: CubeMelonPluginErrorCode::Success, table: false }) {
        ProbeAction::Finish { outcome } => assert_eq!(outcome.err(), Some(CubeMelonPluginErrorCode::InterfaceNotSupported)),
        _ => panic!("probe should finish"),
    }
}

#[test]
fn library_files_are_chosen_by_extension() {
    assert!(is_library_file("libhello.so", "so"));
    assert!(!is_library_file("libhello.so.1", "so"));
    assert!(!is_library_file("so", "so"));
    assert!(is_library_file("x.dll", "dll"));
    assert!(!is_library_file("readme.txt", "so"));
}

#[test]
fn dispatch_to_an_unknown_target_creates_nothing() {
    let modules: ModuleRegistry<()> = ModuleRegistry::new();
    let (session, action) = DispatchSession::start(&modules, CubeMelonUUID::zero(), true);
    assert_eq!(action, DispatchAction::Finish { code: CubeMelonPluginErrorCode::PluginNotFound });
    assert_eq!(session.instance, CubeMelonPlugin::null());
}

fn drive(run_task: bool, init: CubeMelonPluginErrorCode, exec: CubeMelonPluginErrorCode, result: &mut CubeMelonTaskResult) -> (Vec<DispatchAction>, CubeMelonPluginErrorCode) {
    let mut modules: ModuleRegistry<()> = ModuleRegistry::new();
    let target = CubeMelonUUID::from_bytes([7; 16]);
    assert!(modules.insert(target, ()).is_none());
    let (mut session, mut action) = DispatchSession::start(&modules, target, run_task);
    let mut seen = vec![action];
    loop {
        let event = match action {
            DispatchAction::ResolveSymbols => DispatchEvent::Symbols { negotiate: true, create: true, destroy: true },
            DispatchAction::Negotiate { .. } => DispatchEvent::Negotiated { code: CubeMelonPluginErrorCode::Success, table: true },
            DispatchAction::CreateInstance => DispatchEvent::Created { instance: CubeMelonPlugin { id: 4 } },
            DispatchAction::Initialize { .. } => DispatchEvent::Initialized { code: init },
            DispatchAction::Execute { .. } => DispatchEvent::Executed { code: exec },
            DispatchAction::Uninitialize { .. } => DispatchEvent::Uninitialized { code: CubeMelonPluginErrorCode::Unknown },
            DispatchAction::DestroyInstance { .. } => DispatchEvent::Destroyed,
            DispatchAction::Finish { code } => return (seen, code),
        };
        action = session.on_event(event, result);
        seen.push(action);
    }
}

#[test]
fn dispatch_runs_the_whole_lifecycle() {
    let mut result = CubeMelonTaskResult::empty();
    let (actions, code) = drive(true, CubeMelonPluginErrorCode::Success, CubeMelonPluginErrorCode::Success, &mut result);
    assert_eq!(code, CubeMelonPluginErrorCode::Success);
    let instance = CubeMelonPlugin { id: 4 };
    assert_eq!(
        actions,
        vec![
            DispatchAction::ResolveSymbols,
            DispatchAction::Negotiate { capability: 0 },
            DispatchAction::Negotiate { capability: SINGLE_TASK_MASK },
            DispatchAction::CreateInstance,
            DispatchAction::Initialize { instance },
            DispatchAction::Execute { instance },
            DispatchAction::Uninitialize { instance },
            DispatchAction::DestroyInstance { instance },
            DispatchAction::Finish { code: CubeMelonPluginErrorCode::Success },
        ]
    );
    assert_eq!(result.status, CubeMelonExecutionStatus::Idle);
}

#[test]
fn dispatch_failures_are_recorded_and_instances_destroyed() {
    let mut result = CubeMelonTaskResult::empty();
    let (actions, code) = drive(true, CubeMelonPluginErrorCode::Success, CubeMelonPluginErrorCode::Timeout, &mut result);
    assert_eq!(code, CubeMelonPluginErrorCode::Timeout);
    assert_eq!(result.status, CubeMelonExecutionStatus::Error);
    assert_eq!(result.error_code, CubeMelonPluginErrorCode::Timeout);
    assert!(actions.contains(&DispatchAction::DestroyInstance { instance: CubeMelonPlugin { id: 4 } }));

    let mut result = CubeMelonTaskResult::empty();
    let (actions, code) = drive(true, CubeMelonPluginErrorCode::AlreadyInitialized, CubeMelonPluginErrorCode::Success, &mut result);
    assert_eq!(code, CubeMelonPluginErrorCode::AlreadyInitialized);
    assert_eq!(result.error_code, CubeMelonPluginErrorCode::AlreadyInitialized);
    assert!(!actions.iter().any(|a| matches!(a, DispatchAction::Execute { .. })));
    assert!(actions.contains(&DispatchAction::DestroyInstance { instance: CubeMelonPlugin { id: 4 } }));

    let mut result = CubeMelonTaskResult::empty();
    let (actions, code) = drive(false, CubeMelonPluginErrorCode::Success, CubeMelonPluginErrorCode::Timeout, &mut result);
    assert_eq!(code, CubeMelonPluginErrorCode::Success);
    assert!(!actions.iter().any(|a| matches!(a, DispatchAction::Execute { .. })));
}

#[test]
fn dispatch_propagates_missing_single_task() {
    let mut modules: ModuleRegistry<()> = ModuleRegistry::new();
    let target = CubeMelonUUID::from_bytes([7; 16]);
    modules.insert(target, ());
    let mut result = CubeMelonTaskResult::empty();
    let (mut s, _) = DispatchSession::start(&modules, target, true);
    s.on_event(DispatchEvent::Symbols { negotiate: true, create: true, destroy: true }, &mut result);
    s.on_event(DispatchEvent::Negotiated { code: CubeMelonPluginErrorCode::Success, table: true }, &mut result);
    let a = s.on_event(DispatchEvent::Negotiated { code: CubeMelonPluginErrorCode::InterfaceNotSupported, table: false }, &mut result);
    assert_eq!(a, DispatchAction::Finish { code: CubeMelonPluginErrorCode::InterfaceNotSupported });
    assert_eq!(result.error_code, CubeMelonPluginErrorCode::Success);
    assert_eq!(result.status, CubeMelonExecutionStatus::Idle);
}

#[test]
fn module_registry_keeps_the_first_module() {
    let mut modules: ModuleRegistry<u32> = ModuleRegistry::new();
    let id = CubeMelonUUID::from_bytes([5; 16]);
    assert_eq!(modules.insert(id, 1), None);
    assert_eq!(modules.insert(id, 2), Some(2));
    assert_eq!(modules.get(id), Some(&1));
    assert_eq!(modules.len(), 1);
}

#[test]
fn languages_parse_strictly() {
    assert_eq!(parse_language("ja-JP"), CubeMelonLanguage::JA_JP);
    assert_eq!(parse_language("uk-UA"), CubeMelonLanguage::UK_UA);
    assert_eq!(parse_language("ja-jp"), CubeMelonLanguage::EN_US);
    assert_eq!(parse_language(""), CubeMelonLanguage::EN_US);
    assert_eq!(language_to_string(&CubeMelonLanguage::ZH_TW), "zh-TW");
    assert_eq!(effective_language("auto", CubeMelonLanguage::FR_FR), CubeMelonLanguage::FR_FR);
    assert_eq!(effective_language("de-DE", CubeMelonLanguage::FR_FR), CubeMelonLanguage::DE_DE);
    assert_eq!(language_from_locale(Some("ja_JP.UTF-8")), CubeMelonLanguage::JA_JP);
    assert_eq!(language_from_locale(Some("C")), CubeMelonLanguage::EN_US);
    assert_eq!(language_from_locale(None), CubeMelonLanguage::EN_US);
    assert_eq!(language_from_lcid(0x0411), CubeMelonLanguage::JA_JP);
    assert_eq!(language_from_lcid(0x0407), CubeMelonLanguage::DE_DE);
}

#[test]
fn host_interfaces_are_manager_and_state() {
    assert_eq!(host_interface_lookup(CubeMelonPluginType::Manager, 1, true), Ok(CapabilityTable::Manager));
    assert_eq!(host_interface_lookup(CubeMelonPluginType::State, 1, true), Ok(CapabilityTable::State));
    assert_eq!(host_interface_lookup(CubeMelonPluginType::State, 2, true), Err(CubeMelonPluginErrorCode::VersionMismatch));
    assert_eq!(host_interface_lookup(CubeMelonPluginType::State, 1, false), Err(CubeMelonPluginErrorCode::NotInitialized));
    assert_eq!(host_interface_lookup(CubeMelonPluginType::SingleTask, 1, true), Err(CubeMelonPluginErrorCode::InterfaceNotSupported));
}

#[test]
fn host_settings_follow_the_state_rules() {
    let mut s = HostSettings::default_settings();
    assert_eq!(HostSettings::get_format_name(CubeMelonPluginStateScope::Host), Some("toml"));
    assert_eq!(HostSettings::get_format_name(CubeMelonPluginStateScope::Local), None);
    assert_eq!(s.get_state_value(CubeMelonPluginStateScope::Host, "language").unwrap(), "auto");
    assert_eq!(s.get_state_value(CubeMelonPluginStateScope::Host, "colour").err(), Some(CubeMelonPluginErrorCode::PluginNotFound));
    assert_eq!(s.get_state_value(CubeMelonPluginStateScope::Shared, "language").err(), Some(CubeMelonPluginErrorCode::NotSupported));
    assert_eq!(s.set_state_value(CubeMelonPluginStateScope::Host, "language", b""), CubeMelonPluginErrorCode::InvalidParameter);
    assert_eq!(s.set_state_value(CubeMelonPluginStateScope::Host, "language", &[0xc3, 0x28]), CubeMelonPluginErrorCode::Encoding);
    assert_eq!(s.set_state_value(CubeMelonPluginStateScope::Local, "language", b"ja-JP"), CubeMelonPluginErrorCode::NotSupported);
    assert_eq!(s.set_state_value(CubeMelonPluginStateScope::Host, "colour", b"red"), CubeMelonPluginErrorCode::PluginNotFound);
    assert_eq!(s.set_state_value(CubeMelonPluginStateScope::Host, "language", b"ja-JP"), CubeMelonPluginErrorCode::Success);
    assert_eq!(s.language, "ja-JP");
    assert_eq!(s.clear_state_value(CubeMelonPluginStateScope::Host, "language"), CubeMelonPluginErrorCode::Success);
    assert_eq!(s.language, "auto");
    assert_eq!(HostSettings::list_state_keys(CubeMelonPluginStateScope::Host).unwrap(), vec!["plugins_directory", "language"]);
    assert_eq!(HostSettings::decode_save_request(CubeMelonPluginStateScope::Host, b"").err(), Some(CubeMelonPluginErrorCode::InvalidParameter));
    assert_eq!(HostSettings::decode_save_request(CubeMelonPluginStateScope::Local, b"x").err(), Some(CubeMelonPluginErrorCode::NotSupported));
    assert_eq!(HostSettings::decode_save_request(CubeMelonPluginStateScope::Host, &[0xff]).err(), Some(CubeMelonPluginErrorCode::Encoding));
    assert_eq!(HostSettings::decode_save_request(CubeMelonPluginStateScope::Host, b"[settings]").unwrap(), "[settings]");
    assert_eq!(s.apply_parsed(None), CubeMelonPluginErrorCode::Parse);
    assert_eq!(persist_outcome(false), CubeMelonPluginErrorCode::IO);
    assert_eq!(HostSettings::check_load_scope(CubeMelonPluginStateScope::Shared), CubeMelonPluginErrorCode::NotSupported);
}

fn sample_runtime() -> HostRuntime<()> {
    let mut rt: HostRuntime<()> = HostRuntime::new(HostSettings::default_settings(), CubeMelonLanguage::EN_US);
    rt.discovered_plugins.push(PluginInfo {
        uuid: CubeMelonUUID::from_bytes([0x11; 16]),
        version: CubeMelonVersion::new(1, 20, 3),
        supported_types: 17,
        name: "Say \"hi\"".to_string(),
        description: "line1\nline2\t\\".to_string(),
        path: "/p/a.so".to_string(),
    });
    rt.discovered_plugins.push(PluginInfo {
        uuid: CubeMelonUUID::from_bytes([0x22; 16]),
        version: CubeMelonVersion::new(0, 1, 0),
        supported_types: 0,
        name: "second".to_string(),
        description: "two".to_string(),
        path: "b.so".to_string(),
    });
    rt
}

#[test]
fn detailed_info_is_exact_json() {
    let mut rt = sample_runtime();
    rt.modules.insert(CubeMelonUUID::from_bytes([0x11; 16]), ());
    let json = rt.detailed_info_json(CubeMelonUUID::from_bytes([0x11; 16])).unwrap();
    assert_eq!(
        json,
        "{\n  \"uuid\": \"11111111-1111-1111-1111-111111111111\",\n  \"version\": \"1.20.3\",\n  \"supported_types\": 17,\n  \"name\": \"Say \\\"hi\\\"\",\n  \"description\": \"line1\\nline2\\t\\\\\",\n  \"loaded\": true,\n  \"path\": \"/p/a.so\"\n}"
    );
    let mut ledger = AllocationLedger::new();
    let mut out = CubeMelonString::from_static_str("old");
    assert_eq!(
        rt.get_plugin_detailed_info(CubeMelonUUID::zero(), &mut out, &mut ledger),
        CubeMelonPluginErrorCode::PluginNotFound
    );
    assert!(out.text.is_none());
}

#[test]
fn plugins_are_found_by_number_name_or_identity() {
    let rt = sample_runtime();
    assert_eq!(rt.find_plugin("2"), Ok(1));
    assert_eq!(rt.find_plugin("0"), Err(CubeMelonPluginErrorCode::OutOfBounds));
    assert_eq!(rt.find_plugin("3"), Err(CubeMelonPluginErrorCode::OutOfBounds));
    assert_eq!(rt.find_plugin("second"), Ok(1));
    assert_eq!(rt.find_plugin("11111111-1111-1111-1111-111111111111"), Ok(0));
    assert_eq!(rt.find_plugin("third"), Err(CubeMelonPluginErrorCode::PluginNotFound));
    assert_eq!(parse_usize("+42"), Some(42));
    assert_eq!(parse_usize("18446744073709551616"), None);
    assert_eq!(parse_usize("4a"), None);
    assert_eq!(parse_usize("+"), None);
}

#[test]
fn catalogue_and_async_bookkeeping() {
    let mut rt = sample_runtime();
    let mut ledger = AllocationLedger::new();
    let infos: CubeMelonPluginBasicInfoArray = rt.get_all_plugins_basic_info(&mut ledger);
    assert_eq!(infos.infos.len(), 2);
    assert_eq!(infos.infos[1].name.as_str(), "second");
    infos.release(&mut ledger);
    assert_eq!(ledger.outstanding_count(), 0);

    let target = CubeMelonUUID::from_bytes([0x22; 16]);
    assert!(!rt.is_plugin_alive(target));
    assert_eq!(rt.submit_async_task(target, 1), CubeMelonPluginErrorCode::PluginNotFound);
    rt.modules.insert(target, ());
    assert!(rt.is_plugin_alive(target));
    assert_eq!(rt.submit_async_task(target, 1), CubeMelonPluginErrorCode::Success);
    assert_eq!(rt.cancel_async_task(1), CubeMelonPluginErrorCode::Success);
    assert_eq!(rt.cancel_async_task(1), CubeMelonPluginErrorCode::Success);
    assert!(!rt.async_tasks.contains(1));
    assert_eq!(rt.find_plugins_for_task(b"{}").0, CubeMelonPluginErrorCode::Success);
    assert_eq!(rt.find_plugins_for_task(&[0xff]).0, CubeMelonPluginErrorCode::Encoding);
    let rt2: HostRuntime<()> = HostRuntime::new(
        HostSettings { plugins_directory: "p".to_string(), language: "ko-KR".to_string() },
        CubeMelonLanguage::EN_US,
    );
    assert_eq!(rt2.system_language, CubeMelonLanguage::KO_KR);
}

struct Nothing;

impl CubeMelonPluginManagerInterface for Nothing {
    fn get_all_plugins_basic_info(&self, _l: CubeMelonLanguage, _o: &mut CubeMelonPluginBasicInfoArray, _g: &mut AllocationLedger) -> CubeMelonPluginErrorCode {
        CubeMelonPluginErrorCode::Success
    }
    fn get_plugin_detailed_info(&self, _u: CubeMelonUUID, _l: CubeMelonLanguage, _o: &mut CubeMelonString, _g: &mut AllocationLedger) -> CubeMelonPluginErrorCode {
        CubeMelonPluginErrorCode::Success
    }
    fn find_plugins_for_task(&self, _t: &[u8], _o: &mut cubemelon::memory::CubeMelonUUIDArray, _g: &mut AllocationLedger) -> CubeMelonPluginErrorCode {
        CubeMelonPluginErrorCode::Success
    }
    fn is_plugin_alive(&self, _u: CubeMelonUUID) -> bool {
        true
    }
    fn execute_task(&mut self, _u: CubeMelonUUID, _r: &cubemelon::CubeMelonTaskRequest, _o: &mut CubeMelonTaskResult) -> CubeMelonPluginErrorCode {
        CubeMelonPluginErrorCode::Success
    }
    fn execute_async_task(&mut self, _u: CubeMelonUUID, _r: &cubemelon::CubeMelonTaskRequest, _i: u64, _n: bool) -> CubeMelonPluginErrorCode {
        CubeMelonPluginErrorCode::Success
    }
    fn cancel_async_task(&mut self, _i: u64) -> CubeMelonPluginErrorCode {
        CubeMelonPluginErrorCode::Success
    }
}

#[test]
fn proxy_forwards_only_when_registered() {
    let mut proxy: HostRuntimeProxy<Nothing> = HostRuntimeProxy::new();
    assert!(!proxy.is_plugin_alive(CubeMelonUUID::zero()));
    assert_eq!(proxy.cancel_async_task(1), CubeMelonPluginErrorCode::NotInitialized);
    proxy.register(Nothing);
    assert!(proxy.is_registered());
    assert!(proxy.is_plugin_alive(CubeMelonUUID::zero()));
    assert_eq!(proxy.cancel_async_task(1), CubeMelonPluginErrorCode::Success);
}

#[test]
fn versions_print_as_dotted_decimals() {
    assert_eq!(cubemelon::runtime::version_string(CubeMelonVersion::new(10, 0, 255)), "10.0.255");
    assert_eq!(cubemelon::runtime::version_string(CubeMelonVersion::new(0, 11, 2)), "0.11.2");
}

#[test]
fn shell_commands_parse() {
    assert_eq!(parse_command("  \n"), ShellCommand::Empty);
    assert_eq!(parse_command("h"), ShellCommand::Help);
    assert_eq!(parse_command("ls\n"), ShellCommand::List);
    assert_eq!(parse_command("load  2 extra"), ShellCommand::Load("2".to_string()));
    assert_eq!(parse_command("run"), ShellCommand::MissingArgument(ArgumentFor::Run));
    assert_eq!(parse_command("\thost-exec abc\n"), ShellCommand::HostExec("abc".to_string()));
    assert_eq!(parse_command("exit"), ShellCommand::Quit);
    assert_eq!(parse_command("frobnicate now"), ShellCommand::Unknown("frobnicate".to_string()));
}

#[test]
fn resident_table_from_idle_only_starts() {
    use_resident_table();
}

fn use_resident_table() {
    let mut store: cubemelon::InstanceStore<ResidentService> = cubemelon::InstanceStore::new();
    let h = cubemelon::instance::create_plugin_instance(&mut store, 4, ResidentService::new());
    let t = cubemelon::interfaces::create_resident_interface::<ResidentService>(4);
    assert_eq!(t.suspend(&mut store, h), CubeMelonPluginErrorCode::InvalidState);
    assert_eq!(t.resume(&mut store, h), CubeMelonPluginErrorCode::InvalidState);
    assert_eq!(t.stop(&mut store, h), CubeMelonPluginErrorCode::InvalidState);
    assert_eq!(t.reset(&mut store, h), CubeMelonPluginErrorCode::InvalidState);
    assert_eq!(t.get_status(&store, h), CubeMelonExecutionStatus::Idle);
    assert_eq!(t.start(&mut store, h, Some("{}")), CubeMelonPluginErrorCode::Success);
    assert_eq!(t.get_status(&store, h), CubeMelonExecutionStatus::Running);
    assert_eq!(t.start(&mut store, h, Some("{}")), CubeMelonPluginErrorCode::InvalidState);
    assert_eq!(t.stop(&mut store, h), CubeMelonPluginErrorCode::Success);
    assert_eq!(t.reset(&mut store, h), CubeMelonPluginErrorCode::Success);
    assert_eq!(t.get_configuration(&store, h), None);
}
