use opqueue::builders::{get_confirmation, to_signed};
use opqueue::keys::{KEY_ENTER, KEY_ESC, KEY_Q, KEY_TAB};
use opqueue::operation::{direction_options, Direction, Operation};
use opqueue::text::{copy_text, push_decimal, push_signed_decimal, same_text, to_chars};

#[test]
fn operations_are_described_with_their_numbers() {
    assert_eq!(Operation::Open(0).describe(), "Open(0)");
    assert_eq!(Operation::Open(12).describe(), "Open(12)");
    assert_eq!(Operation::Save(0, 3).describe(), "Save(0, 3)");
    assert_eq!(Operation::Merge(0, 1, Direction::Horizontal).describe(), "Merge(0, 1, Hor)");
    assert_eq!(Operation::Merge(10, 2, Direction::Vertical).describe(), "Merge(10, 2, Ver)");
    assert_eq!(Operation::Crop(0, 10, 20, 100, 50).describe(), "Crop(0, 10, 20, 100, 50)");
    assert_eq!(
        Operation::Crop(7, 4294967295, 0, -1, i32::MIN).describe(),
        "Crop(7, 4294967295, 0, -1, -2147483648)"
    );
}

#[test]
fn directions_have_symbols_and_names() {
    assert_eq!(direction_options(), vec!['H', 'V']);
    assert_eq!(Direction::from_symbol('H'), Some(Direction::Horizontal));
    assert_eq!(Direction::from_symbol('V'), Some(Direction::Vertical));
    assert_eq!(Direction::from_symbol('h'), None);
    assert_eq!(Direction::from_symbol(' '), None);
    assert_eq!(Direction::Horizontal.label(), "Hor");
    assert_eq!(Direction::Vertical.label(), "Ver");
}

#[test]
fn an_operation_fits_where_what_it_names_exists() {
    assert!(Operation::Open(0).check_fits(0, 1));
    assert!(!Operation::Open(1).check_fits(5, 1));
    assert!(Operation::Save(0, 0).check_fits(0, 1));
    assert!(Operation::Save(0, 2).check_fits(4, 3));
    assert!(!Operation::Save(1, 0).check_fits(0, 1));
    assert!(!Operation::Save(0, 1).check_fits(0, 1));
    assert!(Operation::Merge(0, 1, Direction::Vertical).check_fits(2, 0));
    assert!(!Operation::Merge(0, 2, Direction::Vertical).check_fits(2, 0));
    assert!(!Operation::Merge(2, 0, Direction::Vertical).check_fits(2, 0));
    assert!(Operation::Crop(3, 0, 0, 0, 0).check_fits(4, 0));
    assert!(!Operation::Crop(4, 0, 0, 0, 0).check_fits(4, 0));
}

#[test]
fn numbers_are_written_in_decimal() {
    let mut text = String::from("n=");
    push_decimal(&mut text, 0);
    push_decimal(&mut text, 907);
    push_decimal(&mut text, u64::MAX);
    assert_eq!(text, "n=090718446744073709551615");
    let mut text = String::new();
    push_signed_decimal(&mut text, -45);
    push_signed_decimal(&mut text, 45);
    push_signed_decimal(&mut text, i64::MIN);
    assert_eq!(text, "-4545-9223372036854775808");
}

#[test]
fn text_is_copied_and_compared_by_characters() {
    assert_eq!(copy_text("h\u{e9}llo"), "h\u{e9}llo");
    assert_eq!(to_chars("h\u{e9}"), vec!['h', '\u{e9}']);
    assert!(same_text("bmp", "bmp"));
    assert!(!same_text("bmp", "bmq"));
    assert!(!same_text("bmp", "bm"));
    assert!(same_text("", ""));
}

#[test]
fn the_width_of_a_crop_keeps_its_bits() {
    assert_eq!(to_signed(0), 0);
    assert_eq!(to_signed(100), 100);
    assert_eq!(to_signed(2147483647), i32::MAX);
    assert_eq!(to_signed(2147483648), i32::MIN);
    assert_eq!(to_signed(4294967295), -1);
    assert_eq!(to_signed(3000000000), 3000000000u32 as i32);
}

#[test]
fn enter_confirms_and_escape_declines() {
    assert_eq!(get_confirmation(KEY_ENTER), Some(true));
    assert_eq!(get_confirmation(KEY_ESC), Some(false));
    assert_eq!(get_confirmation(KEY_Q), Some(false));
    assert_eq!(get_confirmation(KEY_TAB), None);
    assert_eq!(get_confirmation('y' as i32), None);
}
