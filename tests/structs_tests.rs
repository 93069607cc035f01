use cubemelon::structs::UNKNOWN_REMAINING;
use cubemelon::types::{CubeMelonExecutionStatus, CubeMelonPluginType, CubeMelonTaskType};
use cubemelon::{
    CubeMelonLanguage, CubeMelonPlugin, CubeMelonPluginBasicInfo, CubeMelonPluginErrorCode,
    CubeMelonString, CubeMelonTaskRequest, CubeMelonTaskResult, CubeMelonUUID, CubeMelonVersion,
};

#[test]
fn test_plugin_basic_info_creation() {
    let uuid = CubeMelonUUID::from_bytes([1; 16]);
    let version = CubeMelonVersion::new(1, 0, 0);
    let name = CubeMelonString::from_static_str("Test Plugin");
    let description = CubeMelonString::from_static_str("A test plugin");
    let types = CubeMelonPluginType::SingleTask.as_raw();

    let info = CubeMelonPluginBasicInfo::new(uuid, version, name, description, types);

    assert_eq!(info.uuid, uuid);
    assert_eq!(info.version, version);
    assert_eq!(info.supported_types, types);
}

#[test]
fn test_task_request_creation() {
    let caller = CubeMelonPlugin::null();
    let input_json = CubeMelonString::from_static_str("{}");
    let task_type = CubeMelonTaskType::Generic;
    let task_language = CubeMelonLanguage::EN_US;
    let timeout = 5000;

    let request = CubeMelonTaskRequest::new(caller, None, input_json, task_type, task_language, 0, timeout);

    assert_eq!(request.task_type, task_type);
    assert_eq!(request.timeout_us, timeout);
    assert_eq!(request.user_data, 0);
}

#[test]
fn test_task_result_creation() {
    let callee = CubeMelonPlugin::null();
    let output_json = CubeMelonString::from_static_str("{}");

    let success_result = CubeMelonTaskResult::success(callee, None, output_json, 0);
    assert!(success_result.is_success());
    assert!(!success_result.is_error());

    let error_result = CubeMelonTaskResult::error(
        callee,
        CubeMelonPluginErrorCode::Network,
        CubeMelonString::from_static_str("Network error"),
    );
    assert!(!error_result.is_success());
    assert!(error_result.is_error());
}

#[test]
fn test_task_result_progress() {
    let mut result = CubeMelonTaskResult::empty();

    assert!(!result.has_progress());
    assert!(!result.has_estimated_time());

    result.set_progress(
        Some(500_000),
        CubeMelonString::from_static_str("Processing..."),
        CubeMelonString::from_static_str("processing"),
        3_000_000,
    );

    assert!(result.has_progress());
    assert!(result.has_estimated_time());
    assert_eq!(result.progress, Some(500_000));
    assert_eq!(result.estimated_remaining_us, 3 * 1000 * 1000);
}

#[test]
fn fresh_results_are_idle_and_unknown() {
    let result = CubeMelonTaskResult::empty();
    assert_eq!(result.status, CubeMelonExecutionStatus::Idle);
    assert_eq!(result.estimated_remaining_us, UNKNOWN_REMAINING);
    let request = CubeMelonTaskRequest::empty();
    assert_eq!(request.task_type.code(), 0);
    assert_eq!(CubeMelonTaskType::GraphQL.code(), 28);
}
