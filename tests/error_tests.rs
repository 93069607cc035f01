use cubemelon::error::{plugin_error, plugin_error_with_message};
use cubemelon::{plugin_error_code_to_string, CubeMelonError, CubeMelonLanguage, CubeMelonPluginErrorCode};

#[test]
fn test_error_code_categorization() {
    assert!(CubeMelonPluginErrorCode::Success.is_success());
    assert!(!CubeMelonPluginErrorCode::Success.is_error());
    assert!(!CubeMelonPluginErrorCode::Success.is_info());

    assert!(!CubeMelonPluginErrorCode::Unknown.is_success());
    assert!(CubeMelonPluginErrorCode::Unknown.is_error());
    assert!(!CubeMelonPluginErrorCode::Unknown.is_info());
}

#[test]
fn test_error_code_to_string() {
    let error_msg = CubeMelonPluginErrorCode::InvalidParameter.to_message(CubeMelonLanguage::EN_US);
    assert_eq!(error_msg, "Invalid parameter");

    let success_msg = CubeMelonPluginErrorCode::Success.to_message(CubeMelonLanguage::EN_US);
    assert_eq!(success_msg, "Success");
}

#[test]
fn test_error_conversion() {
    let plugin_err = CubeMelonError::from(CubeMelonPluginErrorCode::Network);
    match plugin_err {
        CubeMelonError::Plugin { code, .. } => {
            assert_eq!(code, CubeMelonPluginErrorCode::Network);
        }
        _ => panic!("Expected Plugin error variant"),
    }

    let code = CubeMelonPluginErrorCode::from(plugin_err);
    assert_eq!(code, CubeMelonPluginErrorCode::Network);
}

#[test]
fn test_io_error_conversion() {
    let io_err = std::io::Error::new(std::io::ErrorKind::NotFound, "test");
    let plugin_err = CubeMelonError::from(io_err);

    match plugin_err {
        CubeMelonError::Io(_) => (),
        _ => panic!("Expected Io error variant"),
    }

    let code = CubeMelonPluginErrorCode::from(plugin_err);
    assert_eq!(code, CubeMelonPluginErrorCode::IO);
}

#[test]
fn test_plugin_error_macro() {
    let err = plugin_error(CubeMelonPluginErrorCode::Network);
    match err {
        CubeMelonError::Plugin { code, message } => {
            assert_eq!(code, CubeMelonPluginErrorCode::Network);
            assert_eq!(message, "Network error");
        }
        _ => panic!("Expected Plugin error variant"),
    }

    let err = plugin_error_with_message(CubeMelonPluginErrorCode::Network, "Custom message");
    match err {
        CubeMelonError::Plugin { code, message } => {
            assert_eq!(code, CubeMelonPluginErrorCode::Network);
            assert_eq!(message, "Custom message");
        }
        _ => panic!("Expected Plugin error variant"),
    }
}

#[test]
fn test_helper_function() {
    let msg = plugin_error_code_to_string(CubeMelonPluginErrorCode::Timeout, CubeMelonLanguage::EN_US);
    assert_eq!(msg, "Timeout");
}

#[test]
fn error_codes_have_their_boundary_values() {
    assert_eq!(CubeMelonPluginErrorCode::Success.code(), 0);
    assert_eq!(CubeMelonPluginErrorCode::VersionMismatch.code(), -23);
    assert_eq!(CubeMelonPluginErrorCode::PluginNotFound.code(), -30);
    assert_eq!(CubeMelonPluginErrorCode::DiskFull.code(), -73);
    assert_eq!(CubeMelonPluginErrorCode::ReservedEnd.code(), -999);
    assert_eq!(CubeMelonPluginErrorCode::from_code(-31), Some(CubeMelonPluginErrorCode::InterfaceNotSupported));
    assert_eq!(CubeMelonPluginErrorCode::from_code(-35), None);
    assert_eq!(CubeMelonPluginErrorCode::from_code(5), None);
}

#[test]
fn other_errors_map_to_codes() {
    assert_eq!(CubeMelonPluginErrorCode::from(CubeMelonError::NullPointer), CubeMelonPluginErrorCode::NullPointer);
    assert_eq!(
        CubeMelonPluginErrorCode::from(CubeMelonError::Custom("x".to_string())),
        CubeMelonPluginErrorCode::Unknown
    );
    let bytes = vec![0xffu8, 0xfe];
    let utf8_err = std::str::from_utf8(&bytes).unwrap_err();
    assert_eq!(CubeMelonPluginErrorCode::from(CubeMelonError::from(utf8_err)), CubeMelonPluginErrorCode::Encoding);
    assert_eq!(
        CubeMelonPluginErrorCode::ReservedStart.to_message(CubeMelonLanguage::JA_JP),
        "Reserved error code"
    );
}
