use bybit::error::BybitError;
use bybit::event_loop::Frame;
use bybit::request::{Category, Subscription, WebsocketAPI};
use bybit::stream::{Client, Connection, Stream};
use serde_json::Value;

fn stream() -> Stream {
    Stream {
        client: Client {
            api_key: None,
            secret: None,
        },
    }
}

fn topics(connection: &Connection) -> Vec<String> {
    let read: Value = serde_json::from_str(connection.request.as_ref().unwrap()).unwrap();
    assert_eq!(read["op"], Value::from("subscribe"));
    let args = read["args"].as_array().unwrap();
    args.iter()
        .map(|arg| arg.as_str().unwrap().to_string())
        .collect()
}

fn assert_public(connection: &Connection, endpoint: WebsocketAPI) {
    assert_eq!(connection.endpoint, endpoint);
    assert!(!connection.private);
    assert_eq!(connection.alive, None);
}

fn assert_private(connection: &Connection, topic: &str) {
    assert_eq!(connection.endpoint, WebsocketAPI::Private);
    assert!(connection.private);
    assert_eq!(connection.alive, Some(10));
    assert_eq!(topics(connection), vec![topic.to_string()]);
}

#[test]
fn each_category_has_its_endpoint() {
    let open = |category| {
        stream().ws_subscribe(Subscription::new("subscribe", vec!["a", "b"]), category)
    };
    let linear = open(Category::Linear);
    assert_public(&linear, WebsocketAPI::PublicLinear);
    assert_eq!(topics(&linear), vec!["a", "b"]);
    assert_public(&open(Category::Inverse), WebsocketAPI::PublicInverse);
    assert_public(&open(Category::Spot), WebsocketAPI::PublicSpot);
}

#[test]
fn private_subscription() {
    let connection = stream().ws_priv_subscribe(Subscription::new("subscribe", vec!["order"]));
    assert_private(&connection, "order");
}

#[test]
fn order_books_by_depth_and_symbol() {
    let connection = stream().ws_orderbook(vec![(1, "btc"), (500, "EthUsdt")], Category::Spot);
    assert_public(&connection, WebsocketAPI::PublicSpot);
    assert_eq!(
        topics(&connection),
        vec!["orderbook.1.BTC", "orderbook.500.ETHUSDT"]
    );
    let odd = stream().ws_orderbook(vec![(-7, "")], Category::Linear);
    assert_eq!(topics(&odd), vec!["orderbook.-7."]);
}

#[test]
fn public_topics_are_in_capitals() {
    let subs = || vec!["btcusd", "ETHUSD", "1000pepe-x"];
    let trades = stream().ws_trades(subs(), Category::Inverse);
    assert_public(&trades, WebsocketAPI::PublicInverse);
    assert_eq!(
        topics(&trades),
        vec![
            "publicTrade.BTCUSD",
            "publicTrade.ETHUSD",
            "publicTrade.1000PEPE-X"
        ]
    );
    assert_eq!(
        topics(&stream().ws_tickers(subs(), Category::Linear)),
        vec!["tickers.BTCUSD", "tickers.ETHUSD", "tickers.1000PEPE-X"]
    );
    assert_eq!(
        topics(&stream().ws_timed_tickers(subs(), Category::Linear)),
        vec!["tickers.BTCUSD", "tickers.ETHUSD", "tickers.1000PEPE-X"]
    );
    assert_eq!(
        topics(&stream().ws_liquidations(subs(), Category::Linear)),
        vec![
            "liquidation.BTCUSD",
            "liquidation.ETHUSD",
            "liquidation.1000PEPE-X"
        ]
    );
}

#[test]
fn capitals_stay() {
    let twice = stream().ws_tickers(vec!["BTCUSDT", "btcusdt"], Category::Linear);
    assert_eq!(topics(&twice), vec!["tickers.BTCUSDT", "tickers.BTCUSDT"]);
}

#[test]
fn capitals_by_unicode() {
    let connection = stream().ws_tickers(vec!["straße"], Category::Linear);
    assert_eq!(topics(&connection), vec!["tickers.STRASSE"]);
}

#[test]
fn timed_linear_tickers_are_linear() {
    let subs = vec!["btcusdt".to_string(), "ETHUSDT".to_string()];
    let connection = stream().ws_timed_linear_tickers(subs);
    assert_public(&connection, WebsocketAPI::PublicLinear);
    assert_eq!(
        topics(&connection),
        vec!["tickers.BTCUSDT", "tickers.ETHUSDT"]
    );
}

#[test]
fn candles_by_interval_and_symbol() {
    let subs = vec![
        ("5".to_string(), "btcusdt".to_string()),
        ("d".to_string(), "ETH".to_string()),
    ];
    assert_eq!(
        topics(&stream().ws_klines(subs, Category::Linear)),
        vec!["kline.5.BTCUSDT", "kline.d.ETH"]
    );
}

#[test]
fn position_topics() {
    let open = |cat| stream().ws_position(cat);
    assert_private(&open(None), "position");
    assert_private(&open(Some(Category::Linear)), "position.linear");
    assert_private(&open(Some(Category::Inverse)), "position.inverse");
    assert_private(&open(Some(Category::Spot)), "");
    assert_private(&open(Some(Category::Option)), "");
}

#[test]
fn execution_topics() {
    let open = |cat| stream().ws_executions(cat);
    assert_private(&open(None), "execution");
    assert_private(&open(Some(Category::Linear)), "execution.linear");
    assert_private(&open(Some(Category::Inverse)), "execution.inverse");
    assert_private(&open(Some(Category::Spot)), "execution.spot");
    assert_private(&open(Some(Category::Option)), "execution.option");
    assert_private(&stream().ws_fast_exec(), "execution.fast");
}

#[test]
fn order_and_wallet_topics() {
    let open = |cat| stream().ws_orders(cat);
    assert_private(&open(None), "order");
    assert_private(&open(Some(Category::Linear)), "order.linear");
    assert_private(&open(Some(Category::Inverse)), "order.inverse");
    assert_private(&open(Some(Category::Spot)), "order.spot");
    assert_private(&open(Some(Category::Option)), "order.option");
    assert_private(&stream().ws_wallet(), "wallet");
}

#[test]
fn trade_stream_asks_for_nothing() {
    let connection = stream().ws_trade_stream();
    assert_eq!(connection.endpoint, WebsocketAPI::TradeStream);
    assert_eq!(connection.request, None);
    assert!(connection.private);
    assert_eq!(connection.alive, Some(10));
}

#[test]
fn ping_connections() {
    for private in [true, false] {
        let connection = stream().ws_ping(private);
        let endpoint = if private {
            WebsocketAPI::Private
        } else {
            WebsocketAPI::PublicLinear
        };
        assert_eq!(connection.endpoint, endpoint);
        assert_eq!(connection.private, private);
        assert_eq!(connection.alive, None);
        let request = connection.request.unwrap();
        assert!(request.starts_with("{\"op\":\"ping\",\"req_id\":\""));
    }
}

#[test]
fn ping_replies() {
    match Stream::ping_reply(None) {
        Err(BybitError::Base(text)) => assert_eq!(text, "Failed to receive ping response"),
        _ => panic!("no error"),
    }
    match Stream::ping_reply(Some(Err("reset".to_string()))) {
        Err(BybitError::Base(text)) => {
            assert_eq!(text, "Failed to get ping response, error reset")
        }
        _ => panic!("no error"),
    }
    let text = Stream::ping_reply(Some(Ok(Frame::Text("{}".to_string()))));
    assert_eq!(text.unwrap(), Some("{}".to_string()));
    assert_eq!(
        Stream::ping_reply(Some(Ok(Frame::Other))).unwrap(),
        None
    );
}

#[test]
fn private_sessions_end_well() {
    assert!(Stream::priv_outcome(Err(BybitError::from("x".to_string()))).is_ok());
    assert!(Stream::priv_outcome(Ok(())).is_ok());
}

#[test]
fn pongs_end_a_ping() {
    let pong = "{\"op\":\"pong\"}".to_string();
    assert_eq!(Stream::pong_outcome(pong.clone(), Ok(())).unwrap(), pong);
    let error = serde_json::from_str::<Value>("pong").unwrap_err();
    let told = error.to_string();
    match Stream::pong_outcome("pong".to_string(), Err(error)) {
        Err(BybitError::Json(error)) => assert_eq!(error.to_string(), told),
        _ => panic!("no error"),
    }
}

#[test]
fn linear_ticker_sessions_end_well() {
    assert!(Stream::linear_outcome(Err(BybitError::from("x".to_string()))).is_ok());
    assert!(Stream::linear_outcome(Ok(())).is_ok());
}

#[test]
fn public_sessions_end_as_their_loop_does() {
    assert!(Stream::public_outcome(Ok(())).is_ok());
    match Stream::public_outcome(Err(BybitError::from("x".to_string()))) {
        Err(BybitError::Base(text)) => assert_eq!(text, "x"),
        _ => panic!("no error"),
    }
}
