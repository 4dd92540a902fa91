use bybit::error::BybitError;
use bybit::event_loop::{Action, EventLoop, Frame, LoopEvent};
use bybit::request::RequestType;
use bybit::stream::Stream;
use serde_json::Value;

const SECOND: u128 = 1_000_000_000;

fn text(t: &str) -> LoopEvent {
    LoopEvent::Received(Some(Ok(Frame::Text(t.to_string()))))
}

fn other() -> LoopEvent {
    LoopEvent::Received(Some(Ok(Frame::Other)))
}

fn stopped_with(action: Action) -> String {
    match action {
        Action::Stop(BybitError::Base(text)) => text,
        _ => panic!("not stopped"),
    }
}

#[test]
fn a_round_without_orders() {
    let (mut state, first) = Stream::event_loop(false);
    assert!(matches!(first, Action::Receive));
    match state.step(text("hello")) {
        Action::Handle(t) => assert_eq!(t, "hello"),
        _ => panic!("not handled"),
    }
    assert!(matches!(
        state.step(LoopEvent::Handled(Ok(()))),
        Action::ReadClock
    ));
    assert!(matches!(
        state.step(LoopEvent::Clock(SECOND)),
        Action::Receive
    ));
    assert!(matches!(state.step(other()), Action::ReadClock));
}

#[test]
fn a_round_with_orders() {
    let (mut state, first) = Stream::event_loop(true);
    assert!(matches!(first, Action::Receive));
    assert!(matches!(state.step(other()), Action::TakeOrder));
    let order = RequestType::Create(Value::from("x"));
    match state.step(LoopEvent::Order(Some(order))) {
        Action::SendOrder(RequestType::Create(args)) => assert_eq!(args, Value::from("x")),
        _ => panic!("not sent"),
    }
    assert!(matches!(
        state.step(LoopEvent::Sent(Ok(()))),
        Action::ReadClock
    ));
    assert!(matches!(state.step(LoopEvent::Clock(1)), Action::Receive));
    state.step(text("t"));
    assert!(matches!(
        state.step(LoopEvent::Handled(Ok(()))),
        Action::TakeOrder
    ));
    assert!(matches!(
        state.step(LoopEvent::Order(None)),
        Action::ReadClock
    ));
}

#[test]
fn the_loop_ends_in_an_error() {
    let (mut state, _) = Stream::event_loop(true);
    let closed = state.step(LoopEvent::Received(None));
    assert_eq!(stopped_with(closed), "Stream was closed");
    let failed = state.step(LoopEvent::Received(Some(Err("reset".to_string()))));
    assert_eq!(stopped_with(failed), "reset");
    let unhandled = state.step(LoopEvent::Handled(Err(BybitError::Base("why".to_string()))));
    assert_eq!(stopped_with(unhandled), "Error handling stream message");
    match state.step(LoopEvent::Sent(Err("broken pipe".to_string()))) {
        Action::Stop(BybitError::Tungstenite(text)) => assert_eq!(text, "broken pipe"),
        _ => panic!("not stopped"),
    }
}

#[test]
fn pings_are_five_minutes_apart() {
    let (mut state, _) = Stream::event_loop(false);
    let limit = 300 * SECOND;
    assert!(matches!(
        state.step(LoopEvent::Clock(limit)),
        Action::Receive
    ));
    assert!(matches!(
        state.step(LoopEvent::Clock(limit + 1)),
        Action::SendPing
    ));
    assert!(matches!(
        state.step(LoopEvent::Pinged(limit + 5)),
        Action::Receive
    ));
    assert_eq!(state.last_ping, limit + 5);
    assert!(matches!(
        state.step(LoopEvent::Clock(2 * limit + 5)),
        Action::Receive
    ));
    assert!(matches!(
        state.step(LoopEvent::Clock(2 * limit + 6)),
        Action::SendPing
    ));
    assert!(matches!(state.step(LoopEvent::Clock(0)), Action::Receive));
}

#[test]
fn pings_carry_an_id_where_no_orders_are_taken() {
    let (quiet, _) = Stream::event_loop(false);
    let ping: Value = serde_json::from_str(&quiet.ping_message()).unwrap();
    assert_eq!(ping["op"], Value::from("ping"));
    assert_eq!(ping["req_id"].as_str().unwrap().len(), 8);
    let (trading, _) = Stream::event_loop(true);
    assert_eq!(trading.ping_message(), "{\"op\":\"ping\"}");
}

#[test]
fn orders_of_the_loop_stay_valid_for_three_seconds() {
    let orders: Value = serde_json::from_str("[{\"orderId\":\"7\"}]").unwrap();
    let message = EventLoop::order_message(RequestType::Cancel(orders.clone()));
    let read: Value = serde_json::from_str(&message).unwrap();
    assert_eq!(read["op"], Value::from("order.cancel"));
    assert_eq!(read["args"], orders);
    assert_eq!(read["header"]["X-BAPI-RECV-WINDOW"], Value::from("3000"));
}

#[test]
fn texts_and_orders_keep_their_order() {
    let (mut state, _) = Stream::event_loop(true);
    let mut handled: Vec<String> = Vec::new();
    let mut written: Vec<Value> = Vec::new();
    let mut waits = 0;
    for n in 0u64..4 {
        let frame = if n == 2 { other() } else { text(&n.to_string()) };
        let mut action = state.step(frame);
        if let Action::Handle(t) = action {
            handled.push(t);
            action = state.step(LoopEvent::Handled(Ok(())));
        }
        assert!(matches!(action, Action::TakeOrder));
        waits += 1;
        let order = RequestType::Create(Value::from(n));
        match state.step(LoopEvent::Order(Some(order))) {
            Action::SendOrder(RequestType::Create(args)) => {
                if n == 3 {
                    let failed = LoopEvent::Sent(Err("reset".to_string()));
                    assert!(matches!(state.step(failed), Action::Stop(_)));
                    break;
                }
                written.push(args);
            }
            _ => panic!("not sent"),
        }
        assert!(matches!(
            state.step(LoopEvent::Sent(Ok(()))),
            Action::ReadClock
        ));
        assert!(matches!(state.step(LoopEvent::Clock(1)), Action::Receive));
    }
    assert_eq!(handled, vec!["0", "1", "3"]);
    assert_eq!(
        written,
        vec![Value::from(0u64), Value::from(1u64), Value::from(2u64)]
    );
    assert_eq!(waits, 4);
}
