use cubemelon::memory::{
    CubeMelonPluginBasicInfoArray, CubeMelonUUIDArray, CubeMelonValueData, CubeMelonValueTag,
};
use cubemelon::strings::{c_str_to_string, to_wide_cstring, utf16_to_utf8, utf8_to_utf16};
use cubemelon::{
    AllocationLedger, CubeMelonPluginBasicInfo, CubeMelonString, CubeMelonUUID, CubeMelonValue,
    CubeMelonVersion,
};

#[test]
fn test_cubemelon_string_from_string() {
    let mut ledger = AllocationLedger::new();
    let rust_string = "Hello, World!".to_string();
    let cube_string = CubeMelonString::from_string(rust_string, &mut ledger);

    assert!(cube_string.text.is_some());
    assert!(cube_string.free_string.is_some());

    let converted = cube_string.as_str();
    assert_eq!(converted, "Hello, World!");

    cube_string.release(&mut ledger);
    assert_eq!(ledger.outstanding_count(), 0);
}

#[test]
fn test_cubemelon_string_from_static() {
    let cube_string = CubeMelonString::from_static_str("Static string");

    assert!(cube_string.text.is_some());

    let converted = cube_string.as_str();
    assert_eq!(converted, "Static string");

    assert!(cube_string.free_string.is_none());
}

#[test]
fn test_static_string_macro() {
    let s = CubeMelonString::from_static_str("Test string");
    assert!(!s.is_empty());
    assert_eq!(s.as_str(), "Test string");
}

#[test]
fn owned_values_are_released_exactly_once() {
    let mut ledger = AllocationLedger::new();
    let static_value = CubeMelonValue::static_string("fixed");
    let owned = CubeMelonValue::string("moved".to_string(), &mut ledger);
    let copied = CubeMelonValue::string_from_str("copied", &mut ledger);
    let buffer = CubeMelonValue::buffer(vec![1, 2, 3], &mut ledger);
    assert_eq!(ledger.outstanding_count(), 3);
    assert!(!static_value.needs_free());
    assert!(owned.needs_free());
    assert_eq!(copied.as_str(), Some("copied"));
    assert_eq!(buffer.as_buffer(), Some(&[1u8, 2, 3][..]));
    static_value.release(&mut ledger);
    assert_eq!(ledger.outstanding_count(), 3);
    owned.release(&mut ledger);
    copied.release(&mut ledger);
    buffer.release(&mut ledger);
    assert_eq!(ledger.outstanding_count(), 0);
}

#[test]
fn arrays_take_over_their_items() {
    let mut ledger = AllocationLedger::new();
    let a = CubeMelonValue::string("a".to_string(), &mut ledger);
    let b = CubeMelonValue::int_value(-4);
    let arr = CubeMelonValue::array(vec![a, b], &mut ledger);
    assert_eq!(ledger.outstanding_count(), 1);
    assert_eq!(arr.tag(), CubeMelonValueTag::Array);
    match &arr.data {
        CubeMelonValueData::Array(items) => {
            assert_eq!(items.len(), 2);
            assert_eq!(items[0].as_str(), Some("a"));
            assert_eq!(items[1].as_int(), Some(-4));
        }
        _ => panic!("not an array"),
    }
    arr.release(&mut ledger);
    assert_eq!(ledger.outstanding_count(), 0);
}

#[test]
fn scalar_values_read_back() {
    assert!(CubeMelonValue::null().is_null());
    assert_eq!(CubeMelonValue::bool(true).as_bool(), Some(true));
    assert_eq!(CubeMelonValue::uint(9).as_uint(), Some(9));
    assert_eq!(CubeMelonValue::uint(9).as_int(), None);
    assert_eq!(CubeMelonValue::float_bits(0.5f64.to_bits()).tag(), CubeMelonValueTag::Float);
    assert_eq!(CubeMelonValue::pointer(0x1000).tag(), CubeMelonValueTag::Pointer);
    assert!(CubeMelonString::empty().is_empty());
    assert_eq!(CubeMelonString::empty().as_str(), "");
}

#[test]
fn catalogue_arrays_release_their_strings() {
    let mut ledger = AllocationLedger::new();
    let name = CubeMelonString::from_string("n".to_string(), &mut ledger);
    let description = CubeMelonString::from_string("d".to_string(), &mut ledger);
    let info = CubeMelonPluginBasicInfo::new(CubeMelonUUID::zero(), CubeMelonVersion::new(1, 0, 0), name, description, 0);
    let infos = CubeMelonPluginBasicInfoArray::from_vec(vec![info], &mut ledger);
    assert_eq!(ledger.outstanding_count(), 3);
    infos.release(&mut ledger);
    assert_eq!(ledger.outstanding_count(), 0);

    let uuids = CubeMelonUUIDArray::from_vec(vec![CubeMelonUUID::zero()], &mut ledger);
    assert_eq!(uuids.as_slice().len(), 1);
    uuids.release(&mut ledger);
    assert_eq!(ledger.outstanding_count(), 0);
    assert!(CubeMelonUUIDArray::empty().free_uuid_array.is_none());
}

#[test]
fn c_strings_read_up_to_nul() {
    assert_eq!(c_str_to_string(None), Some(String::new()));
    assert_eq!(c_str_to_string(Some(b"abc\0def")), Some("abc".to_string()));
    assert_eq!(c_str_to_string(Some(b"xyz")), Some("xyz".to_string()));
    assert_eq!(c_str_to_string(Some(&[0xff, 0x00])), None);
}

#[test]
fn wide_strings_round_trip() {
    assert_eq!(utf8_to_utf16("A\u{1F600}"), vec![0x41, 0xD83D, 0xDE00, 0]);
    assert_eq!(to_wide_cstring(""), vec![0]);
    assert_eq!(utf16_to_utf8(Some(&[0x41, 0xD83D, 0xDE00, 0, 0x42])), Some("A\u{1F600}".to_string()));
    assert_eq!(utf16_to_utf8(Some(&[0xD800, 0])), None);
    assert_eq!(utf16_to_utf8(None), None);
}

#[test]
fn duplicates_follow_the_ownership_rule() {
    let mut ledger = AllocationLedger::new();
    let owned = CubeMelonString::from_string("mine".to_string(), &mut ledger);
    let copy = owned.duplicate(&mut ledger);
    assert_eq!(ledger.outstanding_count(), 2);
    assert_eq!(copy.as_str(), "mine");
    assert!(copy.needs_free());
    let fixed = CubeMelonString::from_static_str("fixed");
    let fixed_copy = fixed.duplicate(&mut ledger);
    assert!(!fixed_copy.needs_free());
    assert_eq!(ledger.outstanding_count(), 2);
    assert!(CubeMelonString::empty().duplicate(&mut ledger).text.is_none());
    owned.release(&mut ledger);
    copy.release(&mut ledger);
    fixed_copy.release(&mut ledger);
    assert_eq!(ledger.outstanding_count(), 0);
}

#[test]
fn pointer_float_and_array_accessors() {
    let mut ledger = AllocationLedger::new();
    assert_eq!(CubeMelonValue::pointer(42).as_pointer(), Some(42));
    assert_eq!(CubeMelonValue::float_bits(7).as_float_bits(), Some(7));
    assert_eq!(CubeMelonValue::bool(false).as_pointer(), None);
    let arr = CubeMelonValue::array(vec![CubeMelonValue::uint(1)], &mut ledger);
    assert_eq!(arr.as_array().map(|a| a.len()), Some(1));
    assert!(CubeMelonValue::null().as_array().is_none());
}

#[test]
fn localized_text_picks_the_first_match() {
    use_localized();
}

fn use_localized() {
    let table = [
        (cubemelon::CubeMelonLanguage::JA_JP, "単発実行プラグイン"),
        (cubemelon::CubeMelonLanguage::FR_FR, "Plugin"),
        (cubemelon::CubeMelonLanguage::JA_JP, "second"),
    ];
    assert_eq!(cubemelon::strings::localized_text(cubemelon::CubeMelonLanguage::JA_JP, "Single Task Plugin", &table), "単発実行プラグイン");
    assert_eq!(cubemelon::strings::localized_text(cubemelon::CubeMelonLanguage::DE_DE, "Single Task Plugin", &table), "Single Task Plugin");
}
