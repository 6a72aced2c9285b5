use opqueue::keys::{KEY_BACKSPACE, KEY_ENTER, KEY_ESC, KEY_Q, KEY_TAB};
use opqueue::number::{parse_number, NumberEntry, NumberStep};

fn press(entry: &mut NumberEntry, text: &str) {
    for c in text.chars() {
        assert_eq!(entry.on_key(c as i32), NumberStep::Editing);
    }
}

#[test]
fn parse_number_reads_decimal() {
    assert_eq!(parse_number("0"), Some(0));
    assert_eq!(parse_number("7"), Some(7));
    assert_eq!(parse_number("10"), Some(10));
    assert_eq!(parse_number("100"), Some(100));
    assert_eq!(parse_number("65536"), Some(65536));
    assert_eq!(parse_number("0012"), Some(12));
}

#[test]
fn parse_number_takes_what_fits_into_32_bits() {
    assert_eq!(parse_number("4294967295"), Some(4294967295));
    assert_eq!(parse_number("4294967296"), None);
    assert_eq!(parse_number("99999999999999999999999999"), None);
    assert_eq!(parse_number("00000000000000000000000001"), Some(1));
}

#[test]
fn parse_number_refuses_what_is_no_numeral() {
    assert_eq!(parse_number(""), None);
    assert_eq!(parse_number("12a"), None);
    assert_eq!(parse_number("-1"), None);
    assert_eq!(parse_number("+1"), None);
    assert_eq!(parse_number(" 1"), None);
    assert_eq!(parse_number("1.5"), None);
}

#[test]
fn a_number_is_entered_digit_by_digit() {
    let mut entry = NumberEntry::new();
    assert_eq!(entry.digits(), "");
    press(&mut entry, "120");
    assert_eq!(entry.digits(), "120");
    assert_eq!(entry.on_key(KEY_ENTER), NumberStep::Entered(120));
}

#[test]
fn a_key_that_is_no_digit_is_flagged_and_not_appended() {
    let mut entry = NumberEntry::new();
    press(&mut entry, "4");
    assert_eq!(entry.on_key('x' as i32), NumberStep::Flagged);
    assert_eq!(entry.on_key('-' as i32), NumberStep::Flagged);
    assert_eq!(entry.on_key(KEY_TAB), NumberStep::Flagged);
    assert_eq!(entry.on_key(-1), NumberStep::Flagged);
    assert_eq!(entry.on_key(0x103), NumberStep::Flagged);
    assert_eq!(entry.digits(), "4");
}

#[test]
fn backspace_removes_the_last_digit() {
    let mut entry = NumberEntry::new();
    press(&mut entry, "12");
    assert_eq!(entry.on_key(KEY_BACKSPACE), NumberStep::Editing);
    assert_eq!(entry.digits(), "1");
    assert_eq!(entry.on_key(KEY_BACKSPACE), NumberStep::Editing);
    assert_eq!(entry.on_key(KEY_BACKSPACE), NumberStep::Editing);
    assert_eq!(entry.digits(), "");
}

#[test]
fn an_empty_number_is_flagged_on_submit() {
    let mut entry = NumberEntry::new();
    assert_eq!(entry.on_key(KEY_ENTER), NumberStep::Flagged);
    press(&mut entry, "3");
    assert_eq!(entry.on_key(KEY_ENTER), NumberStep::Entered(3));
}

#[test]
fn a_number_that_does_not_fit_is_flagged_on_submit() {
    let mut entry = NumberEntry::new();
    press(&mut entry, "4294967296");
    assert_eq!(entry.on_key(KEY_ENTER), NumberStep::Flagged);
    assert_eq!(entry.digits(), "4294967296");
    assert_eq!(entry.on_key(KEY_BACKSPACE), NumberStep::Editing);
    assert_eq!(entry.on_key(KEY_ENTER), NumberStep::Entered(429496729));
}

#[test]
fn escape_and_q_cancel_a_number() {
    let mut entry = NumberEntry::new();
    press(&mut entry, "5");
    assert_eq!(entry.on_key(KEY_ESC), NumberStep::Cancelled);
    assert_eq!(entry.on_key(KEY_Q), NumberStep::Cancelled);
}
