use cubemelon::types::{check_plugin_compatibility, sdk_version, CubeMelonLogLevel, CubeMelonThreadRequirements};
use cubemelon::{CubeMelonPluginType, CubeMelonUUID, CubeMelonVersion};

#[test]
fn test_uuid_creation_and_display() {
    let uuid = CubeMelonUUID::from_bytes([
        0x12, 0x34, 0x56, 0x78, 0x9a, 0xbc, 0xde, 0xf0,
        0x11, 0x22, 0x33, 0x44, 0x55, 0x66, 0x77, 0x88,
    ]);

    let _expected = "123456789abcdef0-1122-3344-5566-778899aabbcc";
    assert_eq!(uuid.bytes.len(), 16);
}

#[test]
fn uuid_text_is_hyphenated_lower_hex() {
    let uuid = CubeMelonUUID::from_bytes([
        0x12, 0x34, 0x56, 0x78, 0x9a, 0xbc, 0xde, 0xf0,
        0x11, 0x22, 0x33, 0x44, 0x55, 0x66, 0x77, 0x88,
    ]);
    assert_eq!(uuid.to_string(), "12345678-9abc-def0-1122-334455667788");
    assert_eq!(CubeMelonUUID::zero().to_string(), "00000000-0000-0000-0000-000000000000");
}

#[test]
fn test_version_ordering() {
    let v1_0_0 = CubeMelonVersion::new(1, 0, 0);
    let v1_0_1 = CubeMelonVersion::new(1, 0, 1);
    let v1_1_0 = CubeMelonVersion::new(1, 1, 0);
    let v2_0_0 = CubeMelonVersion::new(2, 0, 0);

    assert!(v1_0_0 < v1_0_1);
    assert!(v1_0_1 < v1_1_0);
    assert!(v1_1_0 < v2_0_0);
}

#[test]
fn version_precedes_matches_ordering() {
    let a = CubeMelonVersion::new(1, 9, 9);
    let b = CubeMelonVersion::new(2, 0, 0);
    assert!(a.precedes(&b));
    assert!(!b.precedes(&a));
    assert!(!a.precedes(&a));
}

#[test]
fn test_plugin_type_operations() {
    let web_server = CubeMelonPluginType::HttpServer | CubeMelonPluginType::WebSocket | CubeMelonPluginType::FileSystem;

    assert_ne!(web_server, 0);

    assert!(CubeMelonPluginType::HttpServer.contains(CubeMelonPluginType::HttpServer));
    assert!(!CubeMelonPluginType::HttpServer.contains(CubeMelonPluginType::HttpClient));
}

#[test]
fn test_plugin_type_combine() {
    let types = vec![
        CubeMelonPluginType::HttpServer,
        CubeMelonPluginType::WebSocket,
        CubeMelonPluginType::FileSystem,
    ];

    let combined = CubeMelonPluginType::combine(&types);
    assert_ne!(combined, 0);

    assert_ne!(combined & CubeMelonPluginType::HttpServer.as_raw(), 0);
    assert_ne!(combined & CubeMelonPluginType::WebSocket.as_raw(), 0);
    assert_ne!(combined & CubeMelonPluginType::FileSystem.as_raw(), 0);
}

#[test]
fn plugin_type_masks_are_exact() {
    assert_eq!(CubeMelonPluginType::Basic.as_raw(), 0);
    assert_eq!(CubeMelonPluginType::SingleTask.as_raw(), 1);
    assert_eq!(CubeMelonPluginType::Manager.as_raw(), 0x10);
    assert_eq!(CubeMelonPluginType::HttpServer.as_raw(), 0x200000);
    assert_eq!(CubeMelonPluginType::Reserved.as_raw(), 0x8000000000000000);
    assert_eq!(CubeMelonPluginType::combine(&[]), 0);
    assert_eq!(
        CubeMelonPluginType::combine(&[CubeMelonPluginType::SingleTask, CubeMelonPluginType::State]),
        0x9
    );
    assert_eq!(CubeMelonPluginType::from_raw(0x8), Some(CubeMelonPluginType::State));
    assert_eq!(CubeMelonPluginType::from_raw(0x3), None);
}

#[test]
fn test_thread_requirements_combination() {
    let requirements = CubeMelonThreadRequirements::Background | CubeMelonThreadRequirements::HighPriority;

    assert_ne!(requirements, 0);
    assert_ne!(requirements & CubeMelonThreadRequirements::Background.as_raw(), 0);
    assert_ne!(requirements & CubeMelonThreadRequirements::HighPriority.as_raw(), 0);
}

#[test]
fn test_compatibility_check() {
    let host_v1 = CubeMelonVersion { major: 1, minor: 2, patch: 3 };
    let plugin_v1_old = CubeMelonVersion { major: 1, minor: 0, patch: 0 };
    let plugin_v1_new = CubeMelonVersion { major: 1, minor: 3, patch: 0 };
    let plugin_v2 = CubeMelonVersion { major: 2, minor: 0, patch: 0 };

    assert!(check_plugin_compatibility(plugin_v1_old, host_v1));
    assert!(check_plugin_compatibility(plugin_v1_new, host_v1));

    assert!(!check_plugin_compatibility(plugin_v2, host_v1));
}

#[test]
fn test_sdk_version() {
    let v = sdk_version();
    assert_eq!(v.major, 0);
    assert_eq!(v.minor, 11);
    assert_eq!(v.patch, 2);
}

#[test]
fn test_sdk_initialization() {
    cubemelon::initialize_sdk();
    cubemelon::cleanup_sdk();
}

#[test]
fn test_lib_compiles() {}

#[test]
fn log_levels_order_and_label() {
    assert!(CubeMelonLogLevel::Trace < CubeMelonLogLevel::Error);
    assert_eq!(CubeMelonLogLevel::Warn.label(), "WARN");
}
