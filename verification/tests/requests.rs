use bybit::ambient::{generate_random_uid, timestamp_of};
use bybit::request::{
    build_ws_orders, ping_request, ping_text, subscription_text, trade_text, RequestType,
    Subscription,
};
use bybit::stream::Stream;
use bybit::text::{decimal_text, signed_decimal_text};
use serde_json::Value;
use std::time::{Duration, UNIX_EPOCH};

fn json(text: &str) -> Value {
    serde_json::from_str(text).unwrap()
}

fn is_uid(value: &Value, length: usize) -> bool {
    let id = value.as_str().unwrap();
    id.len() == length && id.chars().all(|c| c.is_ascii_alphanumeric())
}

#[test]
fn subscription_text_is_exact() {
    let action = Subscription::new(
        "subscribe",
        vec!["orderbook.50.BTCUSDT", "publicTrade.ETHUSDT"],
    );
    assert_eq!(
        subscription_text("Ab3dEf9h".to_string(), action),
        "{\"args\":[\"orderbook.50.BTCUSDT\",\"publicTrade.ETHUSDT\"],\"op\":\"subscribe\",\"req_id\":\"Ab3dEf9h\"}"
    );
}

#[test]
fn subscription_without_topics() {
    assert_eq!(
        subscription_text("a".to_string(), Subscription::new("unsubscribe", vec![])),
        "{\"args\":[],\"op\":\"unsubscribe\",\"req_id\":\"a\"}"
    );
}

#[test]
fn subscription_is_read_back() {
    let odd = "a\"b\\c\n\u{1}\u{7f}é漢\u{1f600}";
    let text = subscription_text(odd.to_string(), Subscription::new(odd, vec![odd, ""]));
    let read = json(&text);
    assert_eq!(read["op"], Value::from(odd));
    assert_eq!(read["req_id"], Value::from(odd));
    assert_eq!(read["args"], Value::from(vec![odd, ""]));
    assert_eq!(read.as_object().unwrap().len(), 3);
}

#[test]
fn built_subscription_has_a_random_id() {
    let build = || Stream::build_subscription(Subscription::new("subscribe", vec!["wallet"]));
    let (one, other) = (json(&build()), json(&build()));
    assert!(is_uid(&one["req_id"], 8));
    assert!(is_uid(&other["req_id"], 8));
    assert_ne!(one["req_id"], other["req_id"]);
    assert_eq!(one["op"], Value::from("subscribe"));
    assert_eq!(one["args"], Value::from(vec!["wallet"]));
}

#[test]
fn ping_texts_are_exact() {
    assert_eq!(
        ping_text(Some("12345678".to_string())),
        "{\"op\":\"ping\",\"req_id\":\"12345678\"}"
    );
    assert_eq!(ping_text(None), "{\"op\":\"ping\"}");
    let ping = json(&ping_request());
    assert_eq!(ping["op"], Value::from("ping"));
    assert!(is_uid(&ping["req_id"], 8));
    assert_eq!(ping.as_object().unwrap().len(), 2);
}

#[test]
fn trade_text_is_exact() {
    let orders = json("[{\"symbol\":\"ETHUSDT\",\"qty\":\"0.2\"}]");
    assert_eq!(
        trade_text(
            "0123456789abcdef".to_string(),
            1711001595207,
            RequestType::Create(orders),
            Some(8000)
        ),
        "{\"args\":[{\"qty\":\"0.2\",\"symbol\":\"ETHUSDT\"}],\
         \"header\":{\"X-BAPI-RECV-WINDOW\":\"8000\",\"X-BAPI-TIMESTAMP\":\"1711001595207\"},\
         \"op\":\"order.create\",\"reqId\":\"0123456789abcdef\"}"
    );
}

#[test]
fn trade_operations() {
    let op = |orders: RequestType| {
        let read = json(&trade_text("x".to_string(), 0, orders, None));
        read["op"].as_str().unwrap().to_string()
    };
    assert_eq!(op(RequestType::Create(Value::Null)), "order.create");
    assert_eq!(
        op(RequestType::CreateBatch(Value::Null)),
        "order.create-batch"
    );
    assert_eq!(op(RequestType::Amend(Value::Null)), "order.amend");
    assert_eq!(
        op(RequestType::AmendBatch(Value::Null)),
        "order.amend-batch"
    );
    assert_eq!(op(RequestType::Cancel(Value::Null)), "order.cancel");
    assert_eq!(
        op(RequestType::CancelBatch(Value::Null)),
        "order.cancel-batch"
    );
}

#[test]
fn trade_window_defaults_to_five_seconds() {
    let read = json(&trade_text(
        "x".to_string(),
        u64::MAX,
        RequestType::Cancel(json("[1,-2,18446744073709551615]")),
        None,
    ));
    assert_eq!(read["header"]["X-BAPI-RECV-WINDOW"], Value::from("5000"));
    assert_eq!(
        read["header"]["X-BAPI-TIMESTAMP"],
        Value::from("18446744073709551615")
    );
    assert_eq!(read["args"], json("[1,-2,18446744073709551615]"));
}

#[test]
fn built_trade_request_names_the_time() {
    let text = Stream::build_trade_subscription(RequestType::Amend(json("[{}]")), Some(3000));
    let read = json(&text);
    assert!(is_uid(&read["reqId"], 16));
    assert_eq!(read["op"], Value::from("order.amend"));
    assert_eq!(read["args"], json("[{}]"));
    assert_eq!(read["header"]["X-BAPI-RECV-WINDOW"], Value::from("3000"));
    let timestamp = read["header"]["X-BAPI-TIMESTAMP"].as_str().unwrap();
    assert!(timestamp.parse::<u64>().unwrap() > 1_600_000_000_000);
}

#[test]
fn deepest_request_that_is_read_back() {
    let nested = |depth: usize| format!("{}{}", "[".repeat(depth), "]".repeat(depth));
    let text = |depth: usize| {
        let args = json(&nested(depth));
        trade_text("x".to_string(), 0, RequestType::Create(args), None)
    };
    assert_eq!(json(&text(126))["args"], json(&nested(126)));
    assert!(serde_json::from_str::<Value>(&text(127)).is_err());
}

#[test]
fn orders_are_sent_as_they_are() {
    let orders = json("[{\"symbol\":\"BTCUSDT\"}]");
    assert_eq!(build_ws_orders(RequestType::Create(orders.clone())), orders);
    assert_eq!(
        build_ws_orders(RequestType::CancelBatch(orders.clone())),
        orders
    );
}

#[test]
fn random_ids_have_their_length() {
    for length in [0usize, 1, 8, 16, 100] {
        let id = generate_random_uid(length);
        assert_eq!(id.len(), length);
        assert!(id.chars().all(|c| c.is_ascii_alphanumeric()));
    }
    assert_ne!(generate_random_uid(32), generate_random_uid(32));
}

#[test]
fn numbers_in_decimal() {
    for n in [0u64, 9, 10, 99, 100, 5000, 1711001595207, u64::MAX] {
        assert_eq!(decimal_text(n), n.to_string());
    }
    for n in [0i32, 1, 50, -1, -10, i32::MAX, i32::MIN] {
        assert_eq!(signed_decimal_text(n), n.to_string());
    }
}

#[test]
fn fractions_are_read_as_fractions() {
    let fractions = [0.1, -2.5, 1.0, -0.0, 1e16, 1e-7, 5e-324, f64::MIN, f64::MAX];
    let mut args: Vec<Value> = fractions.iter().map(|f| Value::from(*f)).collect();
    args.push(json("{\"qty\":3,\"price\":\"0.1\",\"deep\":[null,true,-7]}"));
    let args = Value::from(args);
    let orders = RequestType::CreateBatch(args.clone());
    let read = json(&Stream::build_trade_subscription(orders, None));
    assert_eq!(read.as_object().unwrap().len(), 4);
    assert_eq!(read["op"], Value::from("order.create-batch"));
    assert_eq!(read["header"]["X-BAPI-RECV-WINDOW"], Value::from("5000"));
    assert!(is_uid(&read["reqId"], 16));
    for (i, fraction) in fractions.iter().enumerate() {
        assert!(read["args"][i].is_f64());
        assert_eq!(read["args"][i], json(&Value::from(*fraction).to_string()));
    }
    assert_eq!(read["args"][fractions.len()], args[fractions.len()]);
    assert_eq!(read["args"].as_array().unwrap().len(), fractions.len() + 1);
}

#[test]
fn trades_compare_part_by_part() {
    let args = || json("[{\"qty\":0.30000000000000004,\"symbol\":\"BTCUSDT\"}]");
    let read = |orders: RequestType, window: Option<u64>| {
        json(&Stream::build_trade_subscription(orders, window))
    };
    let window = |read: &Value| read["header"]["X-BAPI-RECV-WINDOW"].clone();
    let create = read(RequestType::Create(args()), None);
    let again = read(RequestType::Create(args()), Some(50));
    let cancel = read(RequestType::Cancel(args()), Some(5000));
    let empty = read(RequestType::Create(Value::from(Vec::<Value>::new())), Some(50));
    assert_eq!(create["op"], again["op"]);
    assert_eq!(create["args"], again["args"]);
    assert_ne!(window(&create), window(&again));
    assert_ne!(create["op"], cancel["op"]);
    assert_eq!(create["args"], cancel["args"]);
    assert_eq!(window(&create), window(&cancel));
    assert_eq!(create["op"], empty["op"]);
    assert_ne!(create["args"], empty["args"]);
    assert_eq!(window(&again), window(&empty));
}

#[test]
fn decimals_of_different_numbers_differ() {
    let numbers = [0u64, 1, 10, 100, 101, 110, 1001, 5000, 50000];
    for n in numbers {
        for m in numbers {
            assert_eq!(decimal_text(n) == decimal_text(m), n == m);
        }
    }
}

#[test]
fn timestamps_count_from_1970() {
    let after = |nanos: u64| UNIX_EPOCH + Duration::from_nanos(nanos);
    assert_eq!(timestamp_of(&UNIX_EPOCH), 0);
    assert_eq!(timestamp_of(&after(999_999)), 0);
    assert_eq!(timestamp_of(&after(1_000_000)), 1);
    assert_eq!(timestamp_of(&after(1_711_001_595_207_999_999)), 1711001595207);
    assert_eq!(timestamp_of(&(UNIX_EPOCH - Duration::from_secs(5))), 0);
}
