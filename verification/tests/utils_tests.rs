use dxlib_rs::dxlib_error::DxLibError;
use dxlib_rs::utils::{to_capitalized_snake, to_pascal_case, CStringHolder};

#[test]
fn pascal_case_joins_capitalized_parts() {
    assert_eq!(to_pascal_case("file_read_open"), "FileReadOpen");
    assert_eq!(to_pascal_case("dxlib"), "Dxlib");
    assert_eq!(to_pascal_case("DxLib_Init"), "DxLibInit");
}

#[test]
fn pascal_case_drops_empty_parts() {
    assert_eq!(to_pascal_case("a__b"), "AB");
    assert_eq!(to_pascal_case("_x"), "X");
    assert_eq!(to_pascal_case("x_"), "X");
    assert_eq!(to_pascal_case(""), "");
    assert_eq!(to_pascal_case("___"), "");
}

#[test]
fn pascal_case_uses_the_full_uppercase_mapping() {
    assert_eq!(to_pascal_case("état_b"), "ÉtatB");
    // a mapping may be more than one character long
    assert_eq!(to_pascal_case("ßa"), "SSa");
}

#[test]
fn capitalized_snake_keeps_one_separator() {
    assert_eq!(to_capitalized_snake("file_read_open"), "File_Read_Open");
    assert_eq!(to_capitalized_snake("a__b"), "A_B");
    assert_eq!(to_capitalized_snake("_x_"), "X");
    assert_eq!(to_capitalized_snake(""), "");
    assert_eq!(to_capitalized_snake("set"), "Set");
}

#[test]
fn cstring_holder_owns_terminated_copy() {
    let h = CStringHolder::new("ab");
    assert_eq!(h.as_bytes().as_slice(), &[97u8, 98, 0]);
    let empty = CStringHolder::new("");
    assert_eq!(empty.as_bytes().as_slice(), &[0u8]);
}

#[test]
fn cstring_holder_keeps_multibyte_encoding() {
    let h = CStringHolder::new("é!");
    assert_eq!(h.as_bytes().as_slice(), &[0xC3u8, 0xA9, 0x21, 0]);
}

#[test]
fn describe_names_the_failure() {
    assert_eq!(DxLibError::InitializeError.describe(), "Failed to DxLib_Init()");
    assert_eq!(DxLibError::FinalizeError.describe(), "Failed to DxLib_End()");
    assert_eq!(DxLibError::Other(String::from("GetColor")).describe(), "Error in GetColor");
}
