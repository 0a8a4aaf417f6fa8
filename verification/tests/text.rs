use tracy_gizmos::color::Color;
use tracy_gizmos::mode::Mode;
use tracy_gizmos::text::{
    as_array, ends_with_nul, get_fn_name_from_nested_type, same_text, unavailable, TEXT_CEILING,
};

#[test]
fn ceiling_is_the_largest_sixteen_bit_number() {
    assert_eq!(TEXT_CEILING, u16::MAX as usize);
    assert_eq!(TEXT_CEILING, 65535);
}

#[test]
fn c_strings_end_with_nul() {
    assert!(ends_with_nul(b"work\0"));
    assert!(ends_with_nul(b"\0"));
    assert!(ends_with_nul(b"a\0b\0"));
    assert!(!ends_with_nul(b"work"));
    assert!(!ends_with_nul(b"\0work"));
    assert!(!ends_with_nul(b""));
}

#[test]
fn array_holds_the_text_and_a_nul() {
    assert_eq!(as_array::<5>("work"), [b'w', b'o', b'r', b'k', 0]);
}

#[test]
fn array_cuts_a_longer_text() {
    assert_eq!(as_array::<3>("work::X"), [b'w', b'o', 0]);
    assert_eq!(as_array::<5>("work::X"), [b'w', b'o', b'r', b'k', 0]);
}

#[test]
fn array_of_one_is_the_empty_c_string() {
    assert_eq!(as_array::<1>("work"), [0]);
    assert_eq!(as_array::<1>(""), [0]);
}

#[test]
fn array_keeps_the_bytes_of_wide_characters() {
    assert_eq!(as_array::<3>("é"), [0xc3, 0xa9, 0]);
}

#[test]
fn function_name_drops_the_nested_type() {
    assert_eq!(get_fn_name_from_nested_type("app::work::X"), b"app::work\0".to_vec());
}

#[test]
fn function_name_of_the_shortest_type_name_is_empty() {
    assert_eq!(get_fn_name_from_nested_type("::X"), vec![0]);
}

#[test]
fn function_name_keeps_generic_brackets() {
    assert_eq!(
        get_fn_name_from_nested_type("app::run<u8>::{{closure}}::X"),
        b"app::run<u8>::{{closure}}\0".to_vec()
    );
}

#[test]
fn placeholder_stands_for_an_unknown_function() {
    assert_eq!(unavailable(), b"<unavailable>\0");
    assert!(ends_with_nul(unavailable()));
}

#[test]
fn texts_compare_by_their_characters() {
    assert!(same_text("fn", "fn"));
    assert!(same_text("", ""));
    assert!(!same_text("fn", "f"));
    assert!(!same_text("fn", "fm"));
    assert!(!same_text("const", "async"));
    assert!(same_text("héllo", "héllo"));
    assert!(!same_text("héllo", "hèllo"));
}

#[test]
fn color_is_its_packed_value() {
    assert_eq!(Color(0x00ff_e4c4).as_u32(), 0x00ff_e4c4);
    assert_eq!(Color::unspecified().as_u32(), 0);
    assert_eq!(Color::unspecified(), Color(0));
}

#[test]
fn modes_are_told_apart() {
    assert!(Mode::Enabled.is_enabled());
    assert!(!Mode::Disabled.is_enabled());
}
