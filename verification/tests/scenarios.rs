use wb_notifier::bargraph::Panel;
use wb_notifier::blink::{blink, enter, BlinkEvent, BlinkInfo, BlinkState, DisplayMode};
use wb_notifier::client::{read_echo, read_unit, Call, Client, ConnHealth, Error, Received, Turn};
use wb_notifier::dispatch::{Dispatch, DispatchError, EndpointKeys};
use wb_notifier::proto::{Ack, Echo, LedColor, Notify, SetDimming, SetLed, Status};
use wb_notifier::server::{handle, mirror, respond, DeviceCall, Plan, Server};
use wb_notifier::wire::Key;

fn keys() -> EndpointKeys {
    EndpointKeys {
        echo: Key(0x1111),
        set_led: Key(0x2222),
        set_dimming: Key(0x3333),
        notify: Key(0x4444),
        ack: Key(0x5555),
        set_backlight: Key(0x6666),
        send_msg: Key(0x7777),
    }
}

fn client() -> Client {
    let mut c = Client::new();
    c.connect(2);
    c
}

/// The server's part for one datagram: the plan and the reply it sends
/// when the device did what was asked.
fn serve(table: &Dispatch, datagram: &[u8]) -> (Plan, Vec<u8>, Option<BlinkInfo>) {
    let (hdr, request) = table.dispatch(datagram).unwrap();
    let plan = handle(&request);
    let effects = respond(hdr, &plan, true);
    (plan, effects.send.unwrap(), effects.signal)
}

fn payload_of(call: &mut Call, reply: &[u8]) -> (Vec<u8>, u8) {
    match call.on_recv(Received::Datagram(reply)) {
        Turn::Done(Ok(got)) => got,
        other => panic!("{:?}", other),
    }
}

fn lit(call: &DeviceCall) -> Vec<(u8, u8)> {
    match call {
        DeviceCall::Cells(updates) => {
            let mut on: Vec<(u8, u8)> = Vec::new();
            for u in updates {
                on.retain(|c| *c != (u.cell.row, u.cell.col));
                if u.enabled {
                    on.push((u.cell.row, u.cell.col));
                }
            }
            on
        }
        other => panic!("no cells in {:?}", other),
    }
}

#[test]
fn scenario_echo() {
    let table = Server::table(&keys()).ok().unwrap();
    let mut call = client().echo(keys().echo, &Echo::from("hello!")).unwrap();
    let (_, reply, signal) = serve(&table, call.datagram());
    assert_eq!(signal, None);
    let (payload, used) = payload_of(&mut call, &reply);
    assert_eq!(read_echo(&payload, used), Ok(ConnHealth(String::from("HELLO!"), 0)));
}

#[test]
fn scenario_notify_then_ack() {
    let table = Server::table(&keys()).ok().unwrap();
    let mut state = BlinkState::Off;
    let mut panel = Panel::new();

    let mut call =
        client().notify(keys().notify, Notify { num: 1, status: Status::Warning }).unwrap();
    let (plan, reply, signal) = serve(&table, call.datagram());
    // LED 1 yellow: its red cell (1, 0) and its green cell (9, 0).
    assert_eq!(lit(&plan.call), vec![(1, 0), (9, 0)]);
    mirror(&mut panel, &plan.call);
    assert_eq!(panel.color(1), Some(LedColor::Yellow));
    let (payload, used) = payload_of(&mut call, &reply);
    assert_eq!(read_unit(&payload, used), Ok(ConnHealth((), 0)));
    state = blink(state, BlinkEvent::Request(signal.unwrap())).next.unwrap();
    assert_eq!(state, BlinkState::Fast);
    assert_eq!(enter(state).display, Some(DisplayMode::TwoHz));

    let mut call = client().ack(keys().ack, Ack { num: Some(1) }).unwrap();
    let (plan, reply, signal) = serve(&table, call.datagram());
    assert_eq!(lit(&plan.call), vec![]);
    mirror(&mut panel, &plan.call);
    assert_eq!(panel.color(1), Some(LedColor::Off));
    let (payload, used) = payload_of(&mut call, &reply);
    assert_eq!(read_unit(&payload, used), Ok(ConnHealth((), 0)));
    state = blink(state, BlinkEvent::Request(signal.unwrap())).next.unwrap();
    assert_eq!(state, BlinkState::Off);
    assert_eq!(enter(state).display, Some(DisplayMode::On));
}

#[test]
fn scenario_ack_all() {
    let table = Server::table(&keys()).ok().unwrap();
    let mut panel = Panel::new();
    for num in 0..4u8 {
        let call =
            client().set_led(keys().set_led, SetLed { num, color: LedColor::Red }).unwrap();
        let (plan, _, _) = serve(&table, call.datagram());
        assert_eq!(lit(&plan.call), vec![(num, 0)]);
        mirror(&mut panel, &plan.call);
    }
    for num in 0..4u8 {
        assert_eq!(panel.color(num), Some(LedColor::Red));
    }
    let call = client().ack(keys().ack, Ack { num: None }).unwrap();
    let (plan, _, signal) = serve(&table, call.datagram());
    assert_eq!(plan.call, DeviceCall::ClearAll);
    assert_eq!(signal, Some(BlinkInfo::LedClear));
    mirror(&mut panel, &plan.call);
    for num in 0..24u8 {
        assert_eq!(panel.color(num), Some(LedColor::Off));
    }
}

#[test]
fn scenario_dimming() {
    let table = Server::table(&keys()).ok().unwrap();
    let call = client().set_dimming(keys().set_dimming, SetDimming::Hi).unwrap();
    assert_eq!(serve(&table, call.datagram()).0.call, DeviceCall::Dimming(16));
    let call = client().set_dimming(keys().set_dimming, SetDimming::Lo).unwrap();
    assert_eq!(serve(&table, call.datagram()).0.call, DeviceCall::Dimming(3));
}

#[test]
fn scenario_unknown_endpoint() {
    let table = Server::table(&keys()).ok().unwrap();
    let bad = Key(0xbad);
    let mut call = client().echo(bad, &Echo::from("hello!")).unwrap();
    let mut sent = 0;
    loop {
        sent += 1;
        // The server finds no handler and sends nothing.
        assert_eq!(
            table.dispatch(call.datagram()).err(),
            Some(DispatchError::NoMatch { key: bad, seq_no: 0 })
        );
        match call.on_recv(Received::TimedOut) {
            Turn::Resend => {}
            Turn::Done(end) => {
                assert_eq!(end, Err(Error::NoResponse { seq_no: 0, key: bad }));
                break;
            }
        }
    }
    assert_eq!(sent, 3);
}

#[test]
fn scenario_led_out_of_range() {
    let table = Server::table(&keys()).ok().unwrap();
    let mut call =
        client().set_led(keys().set_led, SetLed { num: 24, color: LedColor::Green }).unwrap();
    let (plan, reply, _) = serve(&table, call.datagram());
    assert_eq!(plan.call, DeviceCall::Refused);
    assert_eq!(plan.call.target(), None);
    let (payload, used) = payload_of(&mut call, &reply);
    assert!(matches!(read_unit(&payload, used), Err(Error::RequestFailed(_))));
}

#[test]
fn scenario_lost_datagrams() {
    let table = Server::table(&keys()).ok().unwrap();
    let mut call = client().set_dimming(keys().set_dimming, SetDimming::Lo).unwrap();
    // The first two requests are lost.
    assert_eq!(call.on_recv(Received::TimedOut), Turn::Resend);
    assert_eq!(call.on_recv(Received::TimedOut), Turn::Resend);
    let (_, reply, _) = serve(&table, call.datagram());
    let (payload, used) = payload_of(&mut call, &reply);
    assert_eq!(read_unit(&payload, used), Ok(ConnHealth((), 2)));
}
