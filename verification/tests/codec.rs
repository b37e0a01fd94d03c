use wb_notifier::codec::{
    decode_ack, decode_msg_reply, decode_notify, decode_set_backlight, decode_set_dimming,
    decode_set_led, decode_text, decode_unit_reply, encode_ack, encode_msg_reply, encode_notify,
    encode_set_backlight, encode_set_dimming, encode_set_led, encode_text, encode_unit_reply,
    take_variant,
};
use wb_notifier::proto::{
    Ack, LedColor, MsgStatus, Notify, RequestError, SetBacklight, SetDimming, SetLed, Status,
};
use wb_notifier::wire::WireError;

#[test]
fn set_led_bytes() {
    let colors = [LedColor::Off, LedColor::Green, LedColor::Red, LedColor::Yellow];
    for (i, color) in colors.into_iter().enumerate() {
        let m = SetLed { num: 23, color };
        let bytes = encode_set_led(&m);
        assert_eq!(bytes, vec![23, i as u8]);
        assert_eq!(decode_set_led(&bytes), Ok(m));
    }
}

#[test]
fn set_led_rejects_unknown_color_and_short_payload() {
    assert_eq!(decode_set_led(&[]), Err(WireError::Parse));
    assert_eq!(decode_set_led(&[5]), Err(WireError::Parse));
    assert_eq!(decode_set_led(&[5, 4]), Err(WireError::Parse));
    assert_eq!(decode_set_led(&[5, 0x80]), Err(WireError::Parse));
}

#[test]
fn decoders_ignore_what_follows_the_value() {
    assert_eq!(decode_set_led(&[7, 2, 0xff, 0xff]), Ok(SetLed { num: 7, color: LedColor::Red }));
    assert_eq!(decode_ack(&[0, 9, 9]), Ok(Ack { num: None }));
    assert_eq!(decode_text(&[2, b'h', b'i', b'!', 0]), Ok(String::from("hi")));
}

#[test]
fn variant_index_may_be_written_long() {
    // 0x82 0x00 is the index 2 in two bytes.
    assert_eq!(decode_set_led(&[1, 0x82, 0x00]), Ok(SetLed { num: 1, color: LedColor::Red }));
    assert_eq!(take_variant(&[0x82, 0x00], 0, 4), Some((2, 2)));
    assert_eq!(take_variant(&[0x84, 0x00], 0, 4), None);
    assert_eq!(take_variant(&[9, 0x03], 1, 4), Some((3, 2)));
    assert_eq!(take_variant(&[0x03], 5, 4), None);
}

#[test]
fn set_dimming_bytes() {
    assert_eq!(encode_set_dimming(&SetDimming::Lo), vec![0]);
    assert_eq!(encode_set_dimming(&SetDimming::Hi), vec![1]);
    assert_eq!(decode_set_dimming(&[0]), Ok(SetDimming::Lo));
    assert_eq!(decode_set_dimming(&[1]), Ok(SetDimming::Hi));
    assert_eq!(decode_set_dimming(&[2]), Err(WireError::Parse));
    assert_eq!(decode_set_dimming(&[]), Err(WireError::Parse));
}

#[test]
fn notify_bytes() {
    let statuses = [Status::Okay, Status::Warning, Status::Error];
    for (i, status) in statuses.into_iter().enumerate() {
        let m = Notify { num: 200, status };
        let bytes = encode_notify(&m);
        assert_eq!(bytes, vec![200, i as u8]);
        assert_eq!(decode_notify(&bytes), Ok(m));
    }
    assert_eq!(decode_notify(&[1, 3]), Err(WireError::Parse));
    assert_eq!(decode_notify(&[1]), Err(WireError::Parse));
}

#[test]
fn ack_bytes() {
    assert_eq!(encode_ack(&Ack { num: None }), vec![0]);
    assert_eq!(encode_ack(&Ack { num: Some(5) }), vec![1, 5]);
    assert_eq!(decode_ack(&[0]), Ok(Ack { num: None }));
    assert_eq!(decode_ack(&[1, 5]), Ok(Ack { num: Some(5) }));
    assert_eq!(decode_ack(&[1]), Err(WireError::Parse));
    assert_eq!(decode_ack(&[2, 5]), Err(WireError::Parse));
    assert_eq!(decode_ack(&[]), Err(WireError::Parse));
}

#[test]
fn set_backlight_bytes() {
    assert_eq!(encode_set_backlight(&SetBacklight::On), vec![0]);
    assert_eq!(encode_set_backlight(&SetBacklight::Off), vec![1]);
    assert_eq!(decode_set_backlight(&[0]), Ok(SetBacklight::On));
    assert_eq!(decode_set_backlight(&[1]), Ok(SetBacklight::Off));
    assert_eq!(decode_set_backlight(&[2]), Err(WireError::Parse));
}

#[test]
fn text_bytes() {
    assert_eq!(encode_text(""), vec![0]);
    assert_eq!(encode_text("hello!"), vec![6, b'h', b'e', b'l', b'l', b'o', b'!']);
    // Two bytes of UTF-8 for one character: the count is that of the bytes.
    assert_eq!(encode_text("é"), vec![2, 0xc3, 0xa9]);
    let long = "a".repeat(200);
    let bytes = encode_text(&long);
    assert_eq!(&bytes[..2], &[0xc8, 0x01]);
    assert_eq!(bytes.len(), 202);
    assert_eq!(decode_text(&bytes), Ok(long));
}

#[test]
fn text_round_trip_with_wide_characters() {
    let edges = "\u{0}\u{7f}\u{80}\u{7ff}\u{800}\u{ffff}\u{10000}";
    for s in ["", "a", "grüße", "日本語", "🙂 ok", edges] {
        assert_eq!(decode_text(&encode_text(s)), Ok(String::from(s)));
    }
}

#[test]
fn text_rejects_bad_utf8_and_short_payload() {
    assert_eq!(decode_text(&[]), Err(WireError::Parse));
    // Announces three bytes, two follow.
    assert_eq!(decode_text(&[3, b'a', b'b']), Err(WireError::Parse));
    // A lone continuation byte.
    assert_eq!(decode_text(&[1, 0x80]), Err(WireError::Parse));
    // An overlong encoding of '/'.
    assert_eq!(decode_text(&[2, 0xc0, 0xaf]), Err(WireError::Parse));
    // A surrogate.
    assert_eq!(decode_text(&[3, 0xed, 0xa0, 0x80]), Err(WireError::Parse));
    // A count that no payload can hold.
    assert_eq!(
        decode_text(&[0xff, 0xff, 0xff, 0xff, 0xff, 0xff, 0xff, 0xff, 0xff, 0x01]),
        Err(WireError::Parse)
    );
}

#[test]
fn unit_reply_bytes() {
    assert_eq!(encode_unit_reply(&Ok(())), vec![0]);
    assert_eq!(encode_unit_reply(&Err(RequestError {})), vec![1]);
    assert_eq!(decode_unit_reply(&[0]), Ok(Ok(())));
    assert_eq!(decode_unit_reply(&[1]), Ok(Err(RequestError {})));
    assert_eq!(decode_unit_reply(&[2]), Err(WireError::Parse));
    assert_eq!(decode_unit_reply(&[]), Err(WireError::Parse));
}

#[test]
fn msg_reply_bytes() {
    assert_eq!(encode_msg_reply(&Ok(MsgStatus::Okay)), vec![0, 0]);
    assert_eq!(encode_msg_reply(&Ok(MsgStatus::Truncated)), vec![0, 1]);
    assert_eq!(encode_msg_reply(&Err(RequestError {})), vec![1]);
    assert_eq!(decode_msg_reply(&[0, 0]), Ok(Ok(MsgStatus::Okay)));
    assert_eq!(decode_msg_reply(&[0, 1]), Ok(Ok(MsgStatus::Truncated)));
    assert_eq!(decode_msg_reply(&[1]), Ok(Err(RequestError {})));
    assert_eq!(decode_msg_reply(&[0]), Err(WireError::Parse));
    assert_eq!(decode_msg_reply(&[0, 2]), Err(WireError::Parse));
    assert_eq!(decode_msg_reply(&[2]), Err(WireError::Parse));
}
