use wb_notifier::lcd::{failure_of, set_backlight, write_msg, Error, LcdOp};
use wb_notifier::proto::{MsgStatus, SetBacklight};

#[test]
fn short_text_is_written_on_the_first_row() {
    let (ops, status) = write_msg("hi");
    assert_eq!(
        ops,
        vec![LcdOp::Clear, LcdOp::SetCursor(0), LcdOp::Write(b'h'), LcdOp::Write(b'i')]
    );
    assert_eq!(status, MsgStatus::Okay);
}

#[test]
fn empty_text_clears_the_display() {
    let (ops, status) = write_msg("");
    assert_eq!(ops, vec![LcdOp::Clear, LcdOp::SetCursor(0)]);
    assert_eq!(status, MsgStatus::Okay);
}

#[test]
fn lcd_wrap() {
    let text = "abcdefghijklmnopqrstuvwxy";
    assert_eq!(text.len(), 25);
    let (ops, status) = write_msg(text);
    let mut expected = vec![LcdOp::Clear, LcdOp::SetCursor(0)];
    for b in text.bytes().take(20) {
        expected.push(LcdOp::Write(b));
    }
    expected.push(LcdOp::SetCursor(20));
    for b in text.bytes().skip(20) {
        expected.push(LcdOp::Write(b));
    }
    assert_eq!(ops, expected);
    assert_eq!(status, MsgStatus::Okay);
}

#[test]
fn exactly_twenty_characters_do_not_move_the_cursor() {
    let (ops, _) = write_msg(&"x".repeat(20));
    assert_eq!(ops.len(), 22);
    assert!(!ops[2..].contains(&LcdOp::SetCursor(20)));
}

#[test]
fn non_ascii_is_skipped_but_counted() {
    // 'é' is character 1; it is not written, and the row still ends
    // after character 19.
    let text = format!("a\u{e9}{}", "b".repeat(19));
    let (ops, status) = write_msg(&text);
    let mut expected = vec![LcdOp::Clear, LcdOp::SetCursor(0), LcdOp::Write(b'a')];
    for _ in 0..18 {
        expected.push(LcdOp::Write(b'b'));
    }
    expected.push(LcdOp::SetCursor(20));
    expected.push(LcdOp::Write(b'b'));
    assert_eq!(ops, expected);
    assert_eq!(status, MsgStatus::Okay);
}

#[test]
fn full_display_is_not_truncated() {
    let (ops, status) = write_msg(&"z".repeat(80));
    assert_eq!(status, MsgStatus::Okay);
    let cursors: Vec<LcdOp> =
        ops.iter().copied().filter(|op| matches!(op, LcdOp::SetCursor(_))).collect();
    assert_eq!(
        cursors,
        vec![LcdOp::SetCursor(0), LcdOp::SetCursor(20), LcdOp::SetCursor(40), LcdOp::SetCursor(60)]
    );
    assert_eq!(ops.iter().filter(|op| matches!(op, LcdOp::Write(_))).count(), 80);
}

#[test]
fn text_over_eighty_characters_is_truncated() {
    let text = format!("{}{}", "a".repeat(80), "b".repeat(7));
    let (ops, status) = write_msg(&text);
    assert_eq!(status, MsgStatus::Truncated);
    assert_eq!(ops.iter().filter(|op| matches!(op, LcdOp::Write(_))).count(), 80);
    assert!(!ops.contains(&LcdOp::Write(b'b')));
    assert!(!ops.contains(&LcdOp::SetCursor(80)));
}

#[test]
fn failures_name_the_command() {
    assert_eq!(failure_of(LcdOp::Clear), Error::Clear);
    assert_eq!(failure_of(LcdOp::SetCursor(20)), Error::SetCursorPos);
    assert_eq!(failure_of(LcdOp::Write(b'a')), Error::WriteStr);
}

#[test]
fn backlight_levels() {
    assert!(set_backlight(SetBacklight::On));
    assert!(!set_backlight(SetBacklight::Off));
}

#[test]
fn lcd_error_texts() {
    assert_eq!(Error::InitMcp.message(), "I2C expander initialization error");
    assert_eq!(Error::Init.message(), "LCD initialization error");
    assert_eq!(Error::SetCursorPos.message(), "could not set cursor pos");
    assert_eq!(Error::WriteStr.message(), "could not write string");
    assert_eq!(Error::Clear.message(), "could not clear display");
    assert_eq!(Error::SetBacklight.message(), "could not control backlight");
    assert_eq!(Error::Busy(0).message(), "driver busy writing msg id 0");
    assert_eq!(Error::Busy(7).message(), "driver busy writing msg id 7");
    assert_eq!(Error::Busy(10).message(), "driver busy writing msg id 10");
    assert_eq!(Error::Busy(99).message(), "driver busy writing msg id 99");
    assert_eq!(Error::Busy(100).message(), "driver busy writing msg id 100");
    assert_eq!(Error::Yielded(205).message(), "driver voluntarily yielded pos 205");
    assert_eq!(Error::Yielded(255).message(), "driver voluntarily yielded pos 255");
    for n in 0..=255u8 {
        assert_eq!(Error::Busy(n).message(), format!("driver busy writing msg id {}", n));
    }
}
