use wb_notifier::codec::{encode_notify, encode_set_led, encode_text};
use wb_notifier::dispatch::{
    decode_request, Dispatch, DispatchError, Endpoint, RegisterError, Request, CAPACITY,
};
use wb_notifier::proto::{Echo, LedColor, Notify, SendMsg, SetLed, Status};
use wb_notifier::wire::{to_vec_keyed, Key, WireHeader};

#[test]
fn empty_table_matches_nothing() {
    let table = Dispatch::new();
    assert_eq!(table.len(), 0);
    assert_eq!(table.lookup(Key(0)), None);
}

#[test]
fn handlers_are_found_by_key() {
    let mut table = Dispatch::new();
    assert_eq!(table.add_handler(Key(10), Endpoint::Echo), Ok(()));
    assert_eq!(table.add_handler(Key(20), Endpoint::SetLed), Ok(()));
    assert_eq!(table.len(), 2);
    assert_eq!(table.lookup(Key(10)), Some(Endpoint::Echo));
    assert_eq!(table.lookup(Key(20)), Some(Endpoint::SetLed));
    assert_eq!(table.lookup(Key(30)), None);
}

#[test]
fn duplicate_key_is_rejected() {
    let mut table = Dispatch::new();
    assert_eq!(table.add_handler(Key(10), Endpoint::Echo), Ok(()));
    assert_eq!(table.add_handler(Key(10), Endpoint::SetLed), Err(RegisterError::DuplicateKey));
    assert_eq!(table.len(), 1);
    assert_eq!(table.lookup(Key(10)), Some(Endpoint::Echo));
}

#[test]
fn full_table_is_rejected() {
    let mut table = Dispatch::new();
    for i in 0..CAPACITY as u64 {
        assert_eq!(table.add_handler(Key(i), Endpoint::Echo), Ok(()));
    }
    assert_eq!(table.len(), 16);
    assert_eq!(table.add_handler(Key(99), Endpoint::Ack), Err(RegisterError::TableFull));
    // A full table reports `TableFull` for a key that it holds, too.
    assert_eq!(table.add_handler(Key(3), Endpoint::Ack), Err(RegisterError::TableFull));
    assert_eq!(table.len(), 16);
    assert_eq!(table.lookup(Key(99)), None);
}

#[test]
fn register_error_words() {
    assert_eq!(RegisterError::TableFull.reason(), "full");
    assert_eq!(RegisterError::DuplicateKey.reason(), "dupe");
}

fn table() -> Dispatch {
    let mut table = Dispatch::new();
    table.add_handler(Key(1), Endpoint::Echo).unwrap();
    table.add_handler(Key(2), Endpoint::SetLed).unwrap();
    table.add_handler(Key(3), Endpoint::Notify).unwrap();
    table.add_handler(Key(4), Endpoint::SendMsg).unwrap();
    table
}

#[test]
fn dispatch_decodes_the_request_of_the_endpoint() {
    let table = table();
    let m = SetLed { num: 3, color: LedColor::Green };
    let d = to_vec_keyed(77, Key(2), &encode_set_led(&m)).unwrap();
    assert_eq!(
        table.dispatch(&d),
        Ok((WireHeader { key: Key(2), seq_no: 77 }, Request::SetLed(m)))
    );

    let n = Notify { num: 1, status: Status::Warning };
    let d = to_vec_keyed(0, Key(3), &encode_notify(&n)).unwrap();
    assert_eq!(table.dispatch(&d), Ok((WireHeader { key: Key(3), seq_no: 0 }, Request::Notify(n))));

    let d = to_vec_keyed(5, Key(1), &encode_text("hello!")).unwrap();
    assert_eq!(
        table.dispatch(&d),
        Ok((WireHeader { key: Key(1), seq_no: 5 }, Request::Echo(Echo(String::from("hello!")))))
    );
    // The same payload under the key of another endpoint is that
    // endpoint's request.
    let d = to_vec_keyed(5, Key(4), &encode_text("hello!")).unwrap();
    assert_eq!(
        table.dispatch(&d),
        Ok((
            WireHeader { key: Key(4), seq_no: 5 },
            Request::SendMsg(SendMsg(String::from("hello!")))
        ))
    );
}

#[test]
fn unknown_key_is_no_match() {
    let table = table();
    let d = to_vec_keyed(9, Key(0xbad), &encode_text("hello!")).unwrap();
    assert_eq!(table.dispatch(&d), Err(DispatchError::NoMatch { key: Key(0xbad), seq_no: 9 }));
}

#[test]
fn short_datagram_is_a_parse_error() {
    let table = table();
    assert_eq!(table.dispatch(&[]), Err(DispatchError::Parse));
    assert_eq!(table.dispatch(&[0; 11]), Err(DispatchError::Parse));
}

#[test]
fn bad_payload_is_a_parse_error() {
    let table = table();
    let d = to_vec_keyed(0, Key(2), &[3, 9]).unwrap();
    assert_eq!(table.dispatch(&d), Err(DispatchError::Parse));
    let d = to_vec_keyed(0, Key(2), &[]).unwrap();
    assert_eq!(table.dispatch(&d), Err(DispatchError::Parse));
}

#[test]
fn decode_request_by_endpoint() {
    assert_eq!(decode_request(Endpoint::SetDimming, &[1]).is_some(), true);
    assert_eq!(decode_request(Endpoint::SetDimming, &[2]), None);
    assert_eq!(decode_request(Endpoint::SetBacklight, &[1]).is_some(), true);
    assert_eq!(decode_request(Endpoint::Ack, &[1]), None);
    assert_eq!(decode_request(Endpoint::Echo, &[1, 0xff]), None);
}
