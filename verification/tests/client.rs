use wb_notifier::client::{
    read_echo, read_msg, read_reply, read_unit, Client, ConnHealth, Error, Received, Turn,
};
use wb_notifier::dispatch::{Endpoint, EndpointKeys, Request};
use wb_notifier::proto::{
    Ack, Echo, LedColor, Notify, RequestError, SendMsg, SetBacklight, SetDimming, SetLed, Status,
};
use wb_notifier::wire::{to_vec_keyed, Key};

fn connected(retries: u8) -> Client {
    let mut c = Client::new();
    c.connect(retries);
    c
}

#[test]
fn call_before_connect() {
    let c = Client::new();
    assert_eq!(c.raw(Key(1), &[1, 2]).err(), Some(Error::NotConnected));
    assert_eq!(c.echo(Key(1), &Echo::from("x")).err(), Some(Error::NotConnected));
    assert_eq!(Client::new(), c);
}

#[test]
fn request_is_framed_with_sequence_number_zero() {
    let c = connected(3);
    let call = c.raw(Key(0x0807_0605_0403_0201), &[9, 9]).unwrap();
    assert_eq!(call.datagram(), &[0, 0, 0, 0, 1, 2, 3, 4, 5, 6, 7, 8, 9, 9]);
}

#[test]
fn request_that_does_not_fit() {
    let c = connected(0);
    assert_eq!(c.raw(Key(1), &[0; 1013]).err(), Some(Error::Parse));
    assert!(c.raw(Key(1), &[0; 1012]).is_ok());
    // The size is looked at first.
    assert_eq!(Client::new().raw(Key(1), &[0; 1013]).err(), Some(Error::Parse));
}

#[test]
fn typed_requests() {
    let c = connected(0);
    let k = Key(0);
    let body = |d: &[u8]| d[12..].to_vec();
    assert_eq!(body(c.echo(k, &Echo::from("hi")).unwrap().datagram()), vec![2, b'h', b'i']);
    assert_eq!(
        body(c.set_led(k, SetLed { num: 4, color: LedColor::Yellow }).unwrap().datagram()),
        vec![4, 3]
    );
    assert_eq!(
        body(c.notify(k, Notify { num: 4, status: Status::Error }).unwrap().datagram()),
        vec![4, 2]
    );
    assert_eq!(body(c.ack(k, Ack { num: Some(4) }).unwrap().datagram()), vec![1, 4]);
    assert_eq!(body(c.ack(k, Ack { num: None }).unwrap().datagram()), vec![0]);
    assert_eq!(body(c.set_dimming(k, SetDimming::Hi).unwrap().datagram()), vec![1]);
    assert_eq!(body(c.set_backlight(k, SetBacklight::Off).unwrap().datagram()), vec![1]);
    assert_eq!(
        body(c.send_msg(k, &SendMsg(String::from("yo"))).unwrap().datagram()),
        vec![2, b'y', b'o']
    );
}

#[test]
fn reply_pairing() {
    let c = connected(0);
    let mut call = c.raw(Key(7), &[1]).unwrap();
    let reply = to_vec_keyed(0, Key(7), &[0, 5, 6]).unwrap();
    assert_eq!(call.on_recv(Received::Datagram(&reply)), Turn::Done(Ok((vec![0, 5, 6], 0))));
}

#[test]
fn mutated_reply_header_is_a_bad_response() {
    let c = connected(0);
    let mut call = c.raw(Key(7), &[1]).unwrap();
    let reply = to_vec_keyed(1, Key(7), &[0]).unwrap();
    assert_eq!(
        call.on_recv(Received::Datagram(&reply)),
        Turn::Done(Err(Error::BadResponse { seq_no: 1, key: Key(7) }))
    );
    let reply = to_vec_keyed(0, Key(8), &[0]).unwrap();
    assert_eq!(
        call.on_recv(Received::Datagram(&reply)),
        Turn::Done(Err(Error::BadResponse { seq_no: 0, key: Key(8) }))
    );
    // One flipped bit in each byte of the header.
    let good = to_vec_keyed(0, Key(7), &[0]).unwrap();
    for i in 0..12 {
        let mut bad = good.clone();
        bad[i] ^= 0x10;
        match call.on_recv(Received::Datagram(&bad)) {
            Turn::Done(Err(Error::BadResponse { .. })) => {}
            other => panic!("byte {}: {:?}", i, other),
        }
    }
}

#[test]
fn short_reply_is_a_parse_error() {
    let c = connected(0);
    let mut call = c.raw(Key(7), &[1]).unwrap();
    assert_eq!(call.on_recv(Received::Datagram(&[0; 11])), Turn::Done(Err(Error::Parse)));
}

#[test]
fn socket_failure_ends_the_call() {
    let c = connected(5);
    let mut call = c.raw(Key(7), &[1]).unwrap();
    assert_eq!(call.on_recv(Received::Failed), Turn::Done(Err(Error::Io)));
}

#[test]
fn retry_counter() {
    for retries in [0u8, 1, 3, 255] {
        for k in [0u16, 1, 2, 3, 255] {
            if k > retries as u16 {
                continue;
            }
            let c = connected(retries);
            let mut call = c.raw(Key(7), &[1]).unwrap();
            let request = call.datagram().to_vec();
            for _ in 0..k {
                assert_eq!(call.on_recv(Received::TimedOut), Turn::Resend);
                assert_eq!(call.datagram(), &request[..]);
            }
            let reply = to_vec_keyed(0, Key(7), &[0]).unwrap();
            match call.on_recv(Received::Datagram(&reply)) {
                Turn::Done(Ok((payload, used))) => {
                    assert_eq!(used as u16, k);
                    assert_eq!(read_unit(&payload, used), Ok(ConnHealth((), k as u8)));
                }
                other => panic!("{:?}", other),
            }
        }
    }
}

#[test]
fn no_response_after_the_last_retry() {
    for retries in [0u8, 1, 3] {
        let c = connected(retries);
        let mut call = c.raw(Key(7), &[1]).unwrap();
        for _ in 0..retries {
            assert_eq!(call.on_recv(Received::TimedOut), Turn::Resend);
        }
        assert_eq!(
            call.on_recv(Received::TimedOut),
            Turn::Done(Err(Error::NoResponse { seq_no: 0, key: Key(7) }))
        );
    }
}

#[test]
fn reading_replies() {
    assert_eq!(read_unit(&[0], 2), Ok(ConnHealth((), 2)));
    assert_eq!(read_unit(&[1], 2), Err(Error::RequestFailed(RequestError {})));
    assert_eq!(read_unit(&[], 2), Err(Error::Parse));
    assert_eq!(read_unit(&[7], 2), Err(Error::Parse));
    assert_eq!(read_msg(&[0, 0], 1), Ok(ConnHealth((), 1)));
    assert_eq!(read_msg(&[0, 1], 1), Ok(ConnHealth((), 1)));
    assert_eq!(read_msg(&[1], 1), Err(Error::RequestFailed(RequestError {})));
    assert_eq!(read_msg(&[0], 1), Err(Error::Parse));
    assert_eq!(read_echo(&[2, b'H', b'I'], 4), Ok(ConnHealth(String::from("HI"), 4)));
    assert_eq!(read_echo(&[2, b'H'], 4), Err(Error::Parse));
}

#[test]
fn conn_health_accessors() {
    let h = ConnHealth(String::from("x"), 3);
    assert_eq!(h.retries(), 3);
    assert_eq!(h.payload(), "x");
}

#[test]
fn client_error_texts() {
    assert_eq!(Error::NotConnected.message(), "client not connected");
    assert_eq!(Error::Io.message(), "io error");
    assert_eq!(Error::Parse.message(), "could not ser/deserialize RPC call");
    assert_eq!(
        Error::BadResponse { seq_no: 0, key: Key(0) }.message(),
        "unexpected response seq no and key"
    );
    assert_eq!(
        Error::NoResponse { seq_no: 0, key: Key(0) }.message(),
        "no response from server before timeout"
    );
    assert_eq!(
        Error::RequestFailed(RequestError {}).message(),
        "server saw request but failed to process it"
    );
    assert_eq!(
        RequestError {}.message(),
        "driver could not honor request, check error endpoint for details"
    );
}

fn keys() -> EndpointKeys {
    EndpointKeys {
        echo: Key(11),
        set_led: Key(12),
        set_dimming: Key(13),
        notify: Key(14),
        ack: Key(15),
        set_backlight: Key(16),
        send_msg: Key(17),
    }
}

#[test]
fn call_by_request() {
    let c = connected(1);
    let k = keys();
    let requests = [
        Request::Echo(Echo::from("a")),
        Request::SetLed(SetLed { num: 1, color: LedColor::Red }),
        Request::SetDimming(SetDimming::Lo),
        Request::Notify(Notify { num: 2, status: Status::Okay }),
        Request::Ack(Ack { num: None }),
        Request::SetBacklight(SetBacklight::On),
        Request::SendMsg(SendMsg(String::from("b"))),
    ];
    let expected: [(u8, Vec<u8>); 7] = [
        (11, vec![1, b'a']),
        (12, vec![1, 2]),
        (13, vec![0]),
        (14, vec![2, 0]),
        (15, vec![0]),
        (16, vec![0]),
        (17, vec![1, b'b']),
    ];
    for (request, (key, payload)) in requests.iter().zip(expected) {
        assert_eq!(request.endpoint(), [
            Endpoint::Echo,
            Endpoint::SetLed,
            Endpoint::SetDimming,
            Endpoint::Notify,
            Endpoint::Ack,
            Endpoint::SetBacklight,
            Endpoint::SendMsg,
        ][(key - 11) as usize]);
        let call = c.call(&k, request).unwrap();
        let d = call.datagram();
        assert_eq!(&d[..4], &[0, 0, 0, 0]);
        assert_eq!(&d[4..12], &[key, 0, 0, 0, 0, 0, 0, 0]);
        assert_eq!(&d[12..], &payload[..]);
    }
    assert_eq!(Client::new().call(&k, &requests[2]).err(), Some(Error::NotConnected));
}

#[test]
fn reply_by_endpoint() {
    assert_eq!(read_reply(Endpoint::SetLed, &[0], 1), Ok(ConnHealth((), 1)));
    assert_eq!(read_reply(Endpoint::Ack, &[1], 1), Err(Error::RequestFailed(RequestError {})));
    assert_eq!(read_reply(Endpoint::Notify, &[], 1), Err(Error::Parse));
    assert_eq!(read_reply(Endpoint::SetDimming, &[0], 0), Ok(ConnHealth((), 0)));
    assert_eq!(read_reply(Endpoint::SetBacklight, &[0], 0), Ok(ConnHealth((), 0)));
    assert_eq!(read_reply(Endpoint::SendMsg, &[0, 1], 3), Ok(ConnHealth((), 3)));
    assert_eq!(read_reply(Endpoint::SendMsg, &[0], 3), Err(Error::Parse));
    assert_eq!(read_reply(Endpoint::SendMsg, &[1], 3), Err(Error::RequestFailed(RequestError {})));
    assert_eq!(read_reply(Endpoint::Echo, &[1, b'A'], 2), Ok(ConnHealth((), 2)));
    assert_eq!(read_reply(Endpoint::Echo, &[1], 2), Err(Error::Parse));
}
