use cubemelon::error::CubeMelonPluginErrorCode;
use cubemelon::host_services::parse_language;
use cubemelon::interfaces::PluginBase;
use cubemelon::{CubeMelonLanguage, CubeMelonPluginType, CubeMelonUUID, CubeMelonVersion};

#[test]
fn test_uuid_macro() {
    let uuid1 = CubeMelonUUID::parse("12345678-1234-5678-9abc-123456789abc").unwrap();
    let _ = CubeMelonUUID::parse("12345678123456789abc123456789abc").unwrap();

    assert_eq!(uuid1.bytes[0], 0x12);
    assert_eq!(uuid1.bytes[1], 0x34);
    assert_eq!(uuid1.bytes[15], 0xbc);
}

#[test]
fn uuid_text_must_hold_sixteen_bytes() {
    assert!(CubeMelonUUID::parse("12345678-1234-5678-9abc-123456789a").is_none());
    assert!(CubeMelonUUID::parse("12345678-1234-5678-9abc-123456789abcde").is_none());
    assert!(CubeMelonUUID::parse("1-2345678-1234-5678-9abc-123456789abc").is_none());
    assert!(CubeMelonUUID::parse("g2345678-1234-5678-9abc-123456789abc").is_none());
    let upper = CubeMelonUUID::parse("ABCDEF00-0000-0000-0000-000000000000").unwrap();
    assert_eq!(upper.bytes[0], 0xab);
    assert_eq!(upper.to_string(), "abcdef00-0000-0000-0000-000000000000");
}

#[test]
fn test_version_macro() {
    let v = CubeMelonVersion::new(1, 2, 3);
    assert_eq!(v.major, 1);
    assert_eq!(v.minor, 2);
    assert_eq!(v.patch, 3);
}

#[test]
fn test_plugin_types_macro() {
    let single_type = CubeMelonPluginType::SingleTask.as_raw();
    assert_eq!(single_type, CubeMelonPluginType::SingleTask.as_raw());

    let combined_types = CubeMelonPluginType::SingleTask | CubeMelonPluginType::HttpClient;
    assert_eq!(
        combined_types,
        CubeMelonPluginType::SingleTask.as_raw() | CubeMelonPluginType::HttpClient.as_raw()
    );
}

#[test]
fn test_language_macro() {
    let lang = parse_language("en-US");
    assert_eq!(lang.as_str(), "en-US");
}

struct TestPlugin;

impl PluginBase for TestPlugin {
    fn get_uuid() -> CubeMelonUUID {
        CubeMelonUUID::parse("12345678-1234-5678-9abc-123456789abc").unwrap()
    }

    fn get_version() -> CubeMelonVersion {
        CubeMelonVersion::new(1, 0, 0)
    }

    fn get_supported_types() -> u64 {
        CubeMelonPluginType::SingleTask.as_raw()
    }

    fn is_thread_safe() -> bool {
        true
    }

    fn get_thread_requirements() -> u32 {
        2
    }

    fn get_name(&self, _language: CubeMelonLanguage) -> &'static str {
        "Unnamed Plugin"
    }

    fn get_description(&self, _language: CubeMelonLanguage) -> &'static str {
        "No description"
    }

    fn initialize(&mut self) -> Result<(), CubeMelonPluginErrorCode> {
        Ok(())
    }

    fn uninitialize(&mut self) -> Result<(), CubeMelonPluginErrorCode> {
        Ok(())
    }
}

#[test]
fn test_plugin_base_implementation() {
    let expected_uuid = CubeMelonUUID::parse("12345678-1234-5678-9abc-123456789abc").unwrap();
    assert_eq!(TestPlugin::get_uuid(), expected_uuid);
    assert_eq!(TestPlugin::get_version(), CubeMelonVersion::new(1, 0, 0));
    assert_eq!(TestPlugin::get_supported_types(), CubeMelonPluginType::SingleTask.as_raw());
    assert!(TestPlugin::is_thread_safe());
}
