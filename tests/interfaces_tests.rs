use std::collections::HashMap;

use cubemelon::interfaces::{
    create_async_task_interface, create_plugin_manager_interface, create_plugin_state_interface,
    create_resident_interface, create_single_task_interface, CubeMelonAsyncTaskInterface,
    CubeMelonAsyncTaskInterfaceImpl, CubeMelonPluginManagerInterface,
    CubeMelonPluginManagerInterfaceImpl, CubeMelonPluginStateInterface,
    CubeMelonPluginStateInterfaceImpl, CubeMelonResidentInterface, CubeMelonResidentInterfaceImpl,
    CubeMelonSingleTaskInterface, CubeMelonSingleTaskInterfaceImpl,
};
use cubemelon::instance::create_plugin_instance;
use cubemelon::memory::{CubeMelonPluginBasicInfoArray, CubeMelonUUIDArray};
use cubemelon::types::{CubeMelonExecutionStatus, CubeMelonPluginStateScope};
use cubemelon::{
    AllocationLedger, CubeMelonLanguage, CubeMelonPlugin, CubeMelonPluginErrorCode, CubeMelonString,
    CubeMelonTaskRequest, CubeMelonTaskResult, CubeMelonUUID, CubeMelonValue, InstanceStore,
};

struct TestPlugin {
    call_count: usize,
}

impl CubeMelonSingleTaskInterface for TestPlugin {
    fn execute(&mut self, _request: &CubeMelonTaskRequest, result: &mut CubeMelonTaskResult) -> CubeMelonPluginErrorCode {
        self.call_count += 1;
        result.status = CubeMelonExecutionStatus::Completed;
        result.error_code = CubeMelonPluginErrorCode::Success;
        result.progress = Some(1_000_000);
        CubeMelonPluginErrorCode::Success
    }
}

#[test]
fn test_single_task_interface_creation() {
    let _interface = create_single_task_interface::<TestPlugin>(1);
    let fn_ptr = CubeMelonSingleTaskInterfaceImpl::<TestPlugin>::execute;
    assert!(fn_ptr as usize != 0);
}

#[test]
fn test_single_task_execution() {
    let mut store: InstanceStore<TestPlugin> = InstanceStore::new();
    let handle = create_plugin_instance(&mut store, 1, TestPlugin { call_count: 0 });
    let interface = create_single_task_interface::<TestPlugin>(1);
    let request = CubeMelonTaskRequest::empty();
    let mut result = CubeMelonTaskResult::empty();
    let rc = interface.execute(&mut store, handle, &request, &mut result);
    assert_eq!(rc, CubeMelonPluginErrorCode::Success);
    assert_eq!(result.status, CubeMelonExecutionStatus::Completed);
    assert_eq!(store.get(handle, 1).unwrap().call_count, 1);
}

struct FailingPlugin;

impl CubeMelonSingleTaskInterface for FailingPlugin {
    fn execute(&mut self, _request: &CubeMelonTaskRequest, _result: &mut CubeMelonTaskResult) -> CubeMelonPluginErrorCode {
        CubeMelonPluginErrorCode::Timeout
    }
}

#[test]
fn single_task_failures_are_recorded_in_the_result() {
    let mut store: InstanceStore<FailingPlugin> = InstanceStore::new();
    let handle = create_plugin_instance(&mut store, 3, FailingPlugin);
    let interface = create_single_task_interface::<FailingPlugin>(3);
    let request = CubeMelonTaskRequest::empty();

    let mut result = CubeMelonTaskResult::empty();
    assert_eq!(interface.execute(&mut store, handle, &request, &mut result), CubeMelonPluginErrorCode::Timeout);
    assert_eq!(result.status, CubeMelonExecutionStatus::Error);
    assert_eq!(result.error_code, CubeMelonPluginErrorCode::Timeout);

    let mut result = CubeMelonTaskResult::empty();
    assert_eq!(
        interface.execute(&mut store, CubeMelonPlugin::null(), &request, &mut result),
        CubeMelonPluginErrorCode::NullPointer
    );
    assert_eq!(result.error_code, CubeMelonPluginErrorCode::NullPointer);

    let other_kind = create_single_task_interface::<FailingPlugin>(4);
    let mut result = CubeMelonTaskResult::empty();
    assert_eq!(
        other_kind.execute(&mut store, handle, &request, &mut result),
        CubeMelonPluginErrorCode::PluginNotFound
    );
    assert_eq!(result.status, CubeMelonExecutionStatus::Error);
}

struct TestAsyncPlugin {
    call_count: usize,
    cancelled_requests: Vec<u64>,
}

impl CubeMelonAsyncTaskInterface for TestAsyncPlugin {
    fn execute(&mut self, _request: &CubeMelonTaskRequest, _request_id: u64, _notify: bool) -> CubeMelonPluginErrorCode {
        self.call_count += 1;
        CubeMelonPluginErrorCode::Success
    }

    fn cancel(&mut self, request_id: u64) -> CubeMelonPluginErrorCode {
        self.cancelled_requests.push(request_id);
        CubeMelonPluginErrorCode::Success
    }
}

#[test]
fn test_async_task_interface_creation() {
    let _interface = create_async_task_interface::<TestAsyncPlugin>(1);
    let execute_fn = CubeMelonAsyncTaskInterfaceImpl::<TestAsyncPlugin>::execute;
    let cancel_fn = CubeMelonAsyncTaskInterfaceImpl::<TestAsyncPlugin>::cancel;
    assert!(execute_fn as usize != 0);
    assert!(cancel_fn as usize != 0);
}

#[test]
fn test_async_task_execution() {
    let mut store: InstanceStore<TestAsyncPlugin> = InstanceStore::new();
    let handle = create_plugin_instance(&mut store, 1, TestAsyncPlugin { call_count: 0, cancelled_requests: Vec::new() });
    let interface = create_async_task_interface::<TestAsyncPlugin>(1);
    let request = CubeMelonTaskRequest::empty();
    assert_eq!(interface.execute(&mut store, handle, &request, 7, true), CubeMelonPluginErrorCode::Success);
    assert_eq!(interface.cancel(&mut store, handle, 7), CubeMelonPluginErrorCode::Success);
    let plugin = store.get(handle, 1).unwrap();
    assert_eq!(plugin.call_count, 1);
    assert_eq!(plugin.cancelled_requests, vec![7]);
}

#[test]
fn test_null_callback_handling() {
    let mut store: InstanceStore<TestAsyncPlugin> = InstanceStore::new();
    let handle = create_plugin_instance(&mut store, 1, TestAsyncPlugin { call_count: 0, cancelled_requests: Vec::new() });
    let interface = create_async_task_interface::<TestAsyncPlugin>(1);
    let request = CubeMelonTaskRequest::empty();
    assert_eq!(interface.execute(&mut store, handle, &request, 1, false), CubeMelonPluginErrorCode::Success);
    assert_eq!(
        interface.execute(&mut store, CubeMelonPlugin::null(), &request, 2, false),
        CubeMelonPluginErrorCode::NullPointer
    );
}

struct TestResidentPlugin {
    status: CubeMelonExecutionStatus,
    config: String,
}

impl CubeMelonResidentInterface for TestResidentPlugin {
    fn spec_status(&self) -> CubeMelonExecutionStatus {
        self.status
    }

    fn spec_config(&self) -> Option<String> {
        if self.config.is_empty() { None } else { Some(self.config.clone()) }
    }

    fn get_status(&self) -> CubeMelonExecutionStatus {
        self.status
    }

    fn get_configuration(&self) -> Option<String> {
        if self.config.is_empty() { None } else { Some(self.config.clone()) }
    }

    fn update_configuration(&mut self, config_json: Option<&str>) -> CubeMelonPluginErrorCode {
        if config_json.is_none() {
            return CubeMelonPluginErrorCode::NullPointer;
        }
        CubeMelonPluginErrorCode::Success
    }

    fn start(&mut self, config_json: Option<&str>) -> CubeMelonPluginErrorCode {
        if self.status != CubeMelonExecutionStatus::Idle {
            return CubeMelonPluginErrorCode::InvalidState;
        }
        if config_json.is_none() {
            return CubeMelonPluginErrorCode::NullPointer;
        }
        self.status = CubeMelonExecutionStatus::Running;
        CubeMelonPluginErrorCode::Success
    }

    fn suspend(&mut self) -> CubeMelonPluginErrorCode {
        if self.status != CubeMelonExecutionStatus::Running {
            return CubeMelonPluginErrorCode::InvalidState;
        }
        self.status = CubeMelonExecutionStatus::Suspended;
        CubeMelonPluginErrorCode::Success
    }

    fn resume(&mut self) -> CubeMelonPluginErrorCode {
        if self.status != CubeMelonExecutionStatus::Suspended {
            return CubeMelonPluginErrorCode::InvalidState;
        }
        self.status = CubeMelonExecutionStatus::Running;
        CubeMelonPluginErrorCode::Success
    }

    fn stop(&mut self) -> CubeMelonPluginErrorCode {
        match self.status {
            CubeMelonExecutionStatus::Running | CubeMelonExecutionStatus::Suspended => {
                self.status = CubeMelonExecutionStatus::Completed;
                CubeMelonPluginErrorCode::Success
            }
            _ => CubeMelonPluginErrorCode::InvalidState,
        }
    }

    fn reset(&mut self) -> CubeMelonPluginErrorCode {
        match self.status {
            CubeMelonExecutionStatus::Completed | CubeMelonExecutionStatus::Error | CubeMelonExecutionStatus::Cancelled => {
                self.status = CubeMelonExecutionStatus::Idle;
                self.config.clear();
                CubeMelonPluginErrorCode::Success
            }
            _ => CubeMelonPluginErrorCode::InvalidState,
        }
    }
}

#[test]
fn test_resident_interface_creation() {
    let _interface = create_resident_interface::<TestResidentPlugin>(1);

    let get_status_fn = CubeMelonResidentInterfaceImpl::<TestResidentPlugin>::get_status;
    let get_config_fn = CubeMelonResidentInterfaceImpl::<TestResidentPlugin>::get_configuration;
    let update_config_fn = CubeMelonResidentInterfaceImpl::<TestResidentPlugin>::update_configuration;
    let start_fn = CubeMelonResidentInterfaceImpl::<TestResidentPlugin>::start;
    let suspend_fn = CubeMelonResidentInterfaceImpl::<TestResidentPlugin>::suspend;
    let resume_fn = CubeMelonResidentInterfaceImpl::<TestResidentPlugin>::resume;
    let stop_fn = CubeMelonResidentInterfaceImpl::<TestResidentPlugin>::stop;
    let reset_fn = CubeMelonResidentInterfaceImpl::<TestResidentPlugin>::reset;

    assert!(get_status_fn as usize != 0);
    assert!(get_config_fn as usize != 0);
    assert!(update_config_fn as usize != 0);
    assert!(start_fn as usize != 0);
    assert!(suspend_fn as usize != 0);
    assert!(resume_fn as usize != 0);
    assert!(stop_fn as usize != 0);
    assert!(reset_fn as usize != 0);
}

#[test]
fn test_resident_plugin_state_transitions() {
    let mut plugin = TestResidentPlugin { status: CubeMelonExecutionStatus::Idle, config: String::new() };

    assert_eq!(plugin.get_status(), CubeMelonExecutionStatus::Idle);

    let test_config = Some("{}");
    assert_eq!(plugin.start(test_config), CubeMelonPluginErrorCode::Success);
    assert_eq!(plugin.get_status(), CubeMelonExecutionStatus::Running);

    assert_eq!(plugin.suspend(), CubeMelonPluginErrorCode::Success);
    assert_eq!(plugin.get_status(), CubeMelonExecutionStatus::Suspended);

    assert_eq!(plugin.resume(), CubeMelonPluginErrorCode::Success);
    assert_eq!(plugin.get_status(), CubeMelonExecutionStatus::Running);

    assert_eq!(plugin.stop(), CubeMelonPluginErrorCode::Success);
    assert_eq!(plugin.get_status(), CubeMelonExecutionStatus::Completed);

    assert_eq!(plugin.reset(), CubeMelonPluginErrorCode::Success);
    assert_eq!(plugin.get_status(), CubeMelonExecutionStatus::Idle);
}

#[test]
fn test_invalid_state_transitions() {
    let mut plugin = TestResidentPlugin { status: CubeMelonExecutionStatus::Running, config: String::new() };

    let test_config = Some("{}");
    assert_eq!(plugin.start(test_config), CubeMelonPluginErrorCode::InvalidState);

    assert_eq!(plugin.resume(), CubeMelonPluginErrorCode::InvalidState);

    assert_eq!(plugin.reset(), CubeMelonPluginErrorCode::InvalidState);
}

#[test]
fn resident_table_reaches_instances_through_handles() {
    let mut store: InstanceStore<TestResidentPlugin> = InstanceStore::new();
    let handle = create_plugin_instance(
        &mut store,
        9,
        TestResidentPlugin { status: CubeMelonExecutionStatus::Idle, config: String::new() },
    );
    let table = create_resident_interface::<TestResidentPlugin>(9);
    assert_eq!(table.start(&mut store, handle, Some("{}")), CubeMelonPluginErrorCode::Success);
    assert_eq!(table.get_status(&store, handle), CubeMelonExecutionStatus::Running);
    assert_eq!(table.stop(&mut store, handle), CubeMelonPluginErrorCode::Success);
    assert_eq!(table.get_status(&store, CubeMelonPlugin::null()), CubeMelonExecutionStatus::Error);
    assert_eq!(table.suspend(&mut store, CubeMelonPlugin::null()), CubeMelonPluginErrorCode::NullPointer);
    let wrong = create_resident_interface::<TestResidentPlugin>(8);
    assert_eq!(wrong.reset(&mut store, handle), CubeMelonPluginErrorCode::PluginNotFound);
    assert_eq!(table.get_configuration(&store, handle), None);
}

struct TestStatePlugin {
    local_data: HashMap<String, Vec<u8>>,
    format: String,
}

impl CubeMelonPluginStateInterface for TestStatePlugin {
    fn load_state(&self, _scope: CubeMelonPluginStateScope, _data: &mut CubeMelonValue, _ledger: &mut AllocationLedger) -> CubeMelonPluginErrorCode {
        CubeMelonPluginErrorCode::Success
    }

    fn save_state(&mut self, _scope: CubeMelonPluginStateScope, _data: &[u8]) -> CubeMelonPluginErrorCode {
        CubeMelonPluginErrorCode::Success
    }

    fn get_format_name(&self, _scope: CubeMelonPluginStateScope) -> Option<&'static str> {
        Some("json")
    }

    fn get_state_value(&self, _scope: CubeMelonPluginStateScope, _key: &str, _value: &mut CubeMelonValue, _ledger: &mut AllocationLedger) -> CubeMelonPluginErrorCode {
        CubeMelonPluginErrorCode::Success
    }

    fn set_state_value(&mut self, _scope: CubeMelonPluginStateScope, key: &str, data: &[u8]) -> CubeMelonPluginErrorCode {
        self.local_data.insert(key.to_string(), data.to_vec());
        CubeMelonPluginErrorCode::Success
    }

    fn list_state_keys(&self, _scope: CubeMelonPluginStateScope, _keys: &mut CubeMelonValue, _ledger: &mut AllocationLedger) -> CubeMelonPluginErrorCode {
        CubeMelonPluginErrorCode::Success
    }

    fn clear_state_value(&mut self, _scope: CubeMelonPluginStateScope, _key: &str) -> CubeMelonPluginErrorCode {
        CubeMelonPluginErrorCode::Success
    }
}

#[test]
fn test_plugin_state_interface_creation() {
    let _interface = create_plugin_state_interface::<TestStatePlugin>(1);

    let load_state_fn = CubeMelonPluginStateInterfaceImpl::<TestStatePlugin>::load_state;
    let save_state_fn = CubeMelonPluginStateInterfaceImpl::<TestStatePlugin>::save_state;
    let get_format_name_fn = CubeMelonPluginStateInterfaceImpl::<TestStatePlugin>::get_format_name;
    let get_state_value_fn = CubeMelonPluginStateInterfaceImpl::<TestStatePlugin>::get_state_value;
    let set_state_value_fn = CubeMelonPluginStateInterfaceImpl::<TestStatePlugin>::set_state_value;
    let list_state_keys_fn = CubeMelonPluginStateInterfaceImpl::<TestStatePlugin>::list_state_keys;
    let clear_state_value_fn = CubeMelonPluginStateInterfaceImpl::<TestStatePlugin>::clear_state_value;

    assert!(load_state_fn as usize != 0);
    assert!(save_state_fn as usize != 0);
    assert!(get_format_name_fn as usize != 0);
    assert!(get_state_value_fn as usize != 0);
    assert!(set_state_value_fn as usize != 0);
    assert!(list_state_keys_fn as usize != 0);
    assert!(clear_state_value_fn as usize != 0);
}

#[test]
fn test_state_plugin_creation() {
    let plugin = TestStatePlugin { local_data: HashMap::new(), format: "json\0".to_string() };

    assert!(plugin.local_data.is_empty());
    assert_eq!(plugin.format, "json\0");
}

#[test]
fn state_table_refuses_missing_key_and_data() {
    let mut store: InstanceStore<TestStatePlugin> = InstanceStore::new();
    let handle = create_plugin_instance(&mut store, 2, TestStatePlugin { local_data: HashMap::new(), format: String::new() });
    let table = create_plugin_state_interface::<TestStatePlugin>(2);
    let scope = CubeMelonPluginStateScope::Local;
    assert_eq!(table.set_state_value(&mut store, handle, scope, None, Some(b"x")), CubeMelonPluginErrorCode::NullPointer);
    assert_eq!(table.set_state_value(&mut store, handle, scope, Some("k"), None), CubeMelonPluginErrorCode::NullPointer);
    assert_eq!(table.set_state_value(&mut store, handle, scope, Some("k"), Some(b"v")), CubeMelonPluginErrorCode::Success);
    assert_eq!(store.get(handle, 2).unwrap().local_data.get("k"), Some(&b"v".to_vec()));
    assert_eq!(table.get_format_name(&store, handle, scope), Some("json"));
    assert_eq!(table.get_format_name(&store, CubeMelonPlugin::null(), scope), None);
    assert_eq!(table.save_state(&mut store, handle, scope, None), CubeMelonPluginErrorCode::NullPointer);
}

struct TestManagerPlugin {
    plugins: HashMap<CubeMelonUUID, String>,
    task_count: usize,
}

impl CubeMelonPluginManagerInterface for TestManagerPlugin {
    fn get_all_plugins_basic_info(&self, _language: CubeMelonLanguage, _out_infos: &mut CubeMelonPluginBasicInfoArray, _ledger: &mut AllocationLedger) -> CubeMelonPluginErrorCode {
        CubeMelonPluginErrorCode::Success
    }

    fn get_plugin_detailed_info(&self, _target_uuid: CubeMelonUUID, _language: CubeMelonLanguage, _out: &mut CubeMelonString, _ledger: &mut AllocationLedger) -> CubeMelonPluginErrorCode {
        CubeMelonPluginErrorCode::Success
    }

    fn find_plugins_for_task(&self, _task_json: &[u8], _out_uuids: &mut CubeMelonUUIDArray, _ledger: &mut AllocationLedger) -> CubeMelonPluginErrorCode {
        CubeMelonPluginErrorCode::Success
    }

    fn is_plugin_alive(&self, target_uuid: CubeMelonUUID) -> bool {
        self.plugins.contains_key(&target_uuid)
    }

    fn execute_task(&mut self, _target_uuid: CubeMelonUUID, _request: &CubeMelonTaskRequest, _result: &mut CubeMelonTaskResult) -> CubeMelonPluginErrorCode {
        self.task_count += 1;
        CubeMelonPluginErrorCode::Success
    }

    fn execute_async_task(&mut self, _target_uuid: CubeMelonUUID, _request: &CubeMelonTaskRequest, _request_id: u64, _notify: bool) -> CubeMelonPluginErrorCode {
        self.task_count += 1;
        CubeMelonPluginErrorCode::Success
    }

    fn cancel_async_task(&mut self, _request_id: u64) -> CubeMelonPluginErrorCode {
        CubeMelonPluginErrorCode::Success
    }
}

#[test]
fn test_plugin_manager_interface_creation() {
    let _interface = create_plugin_manager_interface::<TestManagerPlugin>(1);

    let get_all_plugins_fn = CubeMelonPluginManagerInterfaceImpl::<TestManagerPlugin>::get_all_plugins_basic_info;
    let get_detailed_info_fn = CubeMelonPluginManagerInterfaceImpl::<TestManagerPlugin>::get_plugin_detailed_info;
    let find_plugins_fn = CubeMelonPluginManagerInterfaceImpl::<TestManagerPlugin>::find_plugins_for_task;
    let is_alive_fn = CubeMelonPluginManagerInterfaceImpl::<TestManagerPlugin>::is_plugin_alive;
    let execute_task_fn = CubeMelonPluginManagerInterfaceImpl::<TestManagerPlugin>::execute_task;
    let execute_async_fn = CubeMelonPluginManagerInterfaceImpl::<TestManagerPlugin>::execute_async_task;
    let cancel_async_fn = CubeMelonPluginManagerInterfaceImpl::<TestManagerPlugin>::cancel_async_task;

    assert!(get_all_plugins_fn as usize != 0);
    assert!(get_detailed_info_fn as usize != 0);
    assert!(find_plugins_fn as usize != 0);
    assert!(is_alive_fn as usize != 0);
    assert!(execute_task_fn as usize != 0);
    assert!(execute_async_fn as usize != 0);
    assert!(cancel_async_fn as usize != 0);
}

#[test]
fn test_manager_plugin_creation() {
    let plugin = TestManagerPlugin { plugins: HashMap::new(), task_count: 0 };

    assert!(plugin.plugins.is_empty());
    assert_eq!(plugin.task_count, 0);
}

#[test]
fn test_plugin_liveness_check() {
    let mut plugin = TestManagerPlugin { plugins: HashMap::new(), task_count: 0 };

    let test_uuid = CubeMelonUUID { bytes: [1, 2, 3, 4, 5, 6, 7, 8, 9, 10, 11, 12, 13, 14, 15, 16] };

    assert!(!plugin.is_plugin_alive(test_uuid));

    plugin.plugins.insert(test_uuid, "TestPlugin".to_string());

    assert!(plugin.is_plugin_alive(test_uuid));
}

#[test]
fn manager_table_counts_dispatches() {
    let mut store: InstanceStore<TestManagerPlugin> = InstanceStore::new();
    let handle = create_plugin_instance(&mut store, 5, TestManagerPlugin { plugins: HashMap::new(), task_count: 0 });
    let table = create_plugin_manager_interface::<TestManagerPlugin>(5);
    let request = CubeMelonTaskRequest::empty();
    let mut result = CubeMelonTaskResult::empty();
    let target = CubeMelonUUID::zero();
    assert_eq!(table.execute_task(&mut store, handle, target, &request, &mut result), CubeMelonPluginErrorCode::Success);
    assert_eq!(table.execute_async_task(&mut store, handle, target, &request, 1, true), CubeMelonPluginErrorCode::Success);
    assert_eq!(store.get(handle, 5).unwrap().task_count, 2);
    assert!(!table.is_plugin_alive(&store, handle, target));
    let mut ledger = AllocationLedger::new();
    let mut out = CubeMelonUUIDArray::empty();
    assert_eq!(
        table.find_plugins_for_task(&store, handle, None, &mut out, &mut ledger),
        CubeMelonPluginErrorCode::NullPointer
    );
}
