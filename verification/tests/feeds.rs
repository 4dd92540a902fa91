use bybit::error::BybitError;
use bybit::events::{
    take_executions, take_fast_executions, take_klines, take_liquidations, take_order_books,
    take_orders, take_plain_tickers, take_positions, take_tickers, take_timed_linear_tickers,
    take_timed_tickers, take_trades, take_wallets, ExecutionData, ExecutionUpdate, FastExecData,
    FastExecUpdate, LinearTickerData, LinearTickerDataSnapshot, Liquidation, LiquidationData,
    OrderBookUpdate, OrderData, OrderUpdate, PositionData, PositionUpdate, SpotTickerData, Ticker,
    TradeUpdate, WalletData, WalletUpdate, WebsocketEvents, WsKline, WsTicker, WsTrade,
};
use bybit::handler::{handle_parsed, EventSink, WebSocketHandler};
use bybit::outbox::Outbox;
use bybit::table::Fields;
use serde_json::Value;

fn body(n: u64) -> Value {
    Value::from(n)
}

fn trade_event() -> WebsocketEvents {
    let data = vec![
        WsTrade { body: body(1) },
        WsTrade { body: body(2) },
        WsTrade { body: body(3) },
    ];
    WebsocketEvents::TradeEvent(TradeUpdate { data })
}

fn linear_event() -> WebsocketEvents {
    let snapshot = LinearTickerDataSnapshot {
        symbol: "BTCUSDT".to_string(),
        fields: Fields::new(),
    };
    WebsocketEvents::TickerEvent(WsTicker {
        ts: 17,
        data: Ticker::Linear(LinearTickerData::Snapshot(snapshot)),
    })
}

fn spot_event() -> WebsocketEvents {
    WebsocketEvents::TickerEvent(WsTicker {
        ts: 18,
        data: Ticker::Spot(SpotTickerData { body: body(9) }),
    })
}

fn all_events() -> Vec<WebsocketEvents> {
    vec![
        WebsocketEvents::OrderBookEvent(OrderBookUpdate { body: body(1) }),
        trade_event(),
        linear_event(),
        spot_event(),
        WebsocketEvents::LiquidationEvent(Liquidation {
            data: LiquidationData { body: body(4) },
        }),
        WebsocketEvents::KlineEvent(WsKline { body: body(5) }),
        WebsocketEvents::PositionEvent(PositionUpdate {
            data: vec![PositionData { body: body(6) }, PositionData { body: body(7) }],
        }),
        WebsocketEvents::ExecutionEvent(ExecutionUpdate {
            data: vec![ExecutionData { body: body(8) }],
        }),
        WebsocketEvents::FastExecEvent(FastExecUpdate {
            data: vec![FastExecData { body: body(9) }],
        }),
        WebsocketEvents::OrderEvent(OrderUpdate {
            data: vec![OrderData { body: body(10) }, OrderData { body: body(11) }],
        }),
        WebsocketEvents::Wallet(WalletUpdate {
            data: vec![WalletData { body: body(12) }],
        }),
    ]
}

#[test]
fn each_feed_takes_its_own_events() {
    let bodies = |taken: Vec<Value>| taken;
    let mut taken: Vec<Value> = Vec::new();
    for event in all_events() {
        taken.extend(take_order_books(event).into_iter().map(|t| t.body));
    }
    assert_eq!(bodies(taken), vec![body(1)]);
    let trades: Vec<Value> = all_events()
        .into_iter()
        .flat_map(take_trades)
        .map(|t| t.body)
        .collect();
    assert_eq!(trades, vec![body(1), body(2), body(3)]);
    let liquidations: Vec<Value> = all_events()
        .into_iter()
        .flat_map(take_liquidations)
        .map(|t| t.body)
        .collect();
    assert_eq!(liquidations, vec![body(4)]);
    let klines: Vec<Value> = all_events()
        .into_iter()
        .flat_map(take_klines)
        .map(|t| t.body)
        .collect();
    assert_eq!(klines, vec![body(5)]);
    let positions: Vec<Value> = all_events()
        .into_iter()
        .flat_map(take_positions)
        .map(|t| t.body)
        .collect();
    assert_eq!(positions, vec![body(6), body(7)]);
    let executions: Vec<Value> = all_events()
        .into_iter()
        .flat_map(take_executions)
        .map(|t| t.body)
        .collect();
    assert_eq!(executions, vec![body(8)]);
    let fast: Vec<Value> = all_events()
        .into_iter()
        .flat_map(take_fast_executions)
        .map(|t| t.body)
        .collect();
    assert_eq!(fast, vec![body(9)]);
    let orders: Vec<Value> = all_events()
        .into_iter()
        .flat_map(take_orders)
        .map(|t| t.body)
        .collect();
    assert_eq!(orders, vec![body(10), body(11)]);
    let wallets: Vec<Value> = all_events()
        .into_iter()
        .flat_map(take_wallets)
        .map(|t| t.body)
        .collect();
    assert_eq!(wallets, vec![body(12)]);
}

#[test]
fn ticker_feeds_agree() {
    let plain: Vec<Ticker> = all_events()
        .into_iter()
        .flat_map(take_plain_tickers)
        .collect();
    assert_eq!(plain.len(), 2);
    assert!(matches!(plain[0], Ticker::Linear(_)));
    assert!(matches!(plain[1], Ticker::Spot(_)));
    let timed = take_timed_tickers(spot_event());
    assert_eq!(timed.len(), 1);
    assert_eq!(timed[0].time, 18);
    assert!(matches!(timed[0].data, Ticker::Spot(_)));
    let linear = take_timed_linear_tickers(linear_event());
    assert_eq!(linear.len(), 1);
    assert_eq!(linear[0].time, 17);
    assert!(matches!(linear[0].data, LinearTickerData::Snapshot(_)));
    assert!(take_timed_linear_tickers(spot_event()).is_empty());
    assert!(take_timed_linear_tickers(trade_event()).is_empty());
}

#[test]
fn tickers_pass_a_filter() {
    let late = |ticker: WsTicker| if ticker.ts > 17 { Some(ticker.ts) } else { None };
    assert_eq!(take_tickers(spot_event(), late), vec![18]);
    assert_eq!(take_tickers(linear_event(), late), Vec::<u64>::new());
    assert_eq!(take_tickers(trade_event(), late), Vec::<u64>::new());
}

#[test]
fn items_go_out_in_their_order() {
    let mut outbox = Outbox::new(vec![3, 1, 2]);
    assert_eq!(outbox.next(Ok(())).unwrap(), Some(3));
    assert_eq!(outbox.next(Ok(())).unwrap(), Some(1));
    assert_eq!(outbox.next(Ok(())).unwrap(), Some(2));
    assert_eq!(outbox.next(Ok(())).unwrap(), None);
    assert_eq!(Outbox::<u8>::new(vec![]).next(Ok(())).unwrap(), None);
}

#[test]
fn nothing_goes_out_after_a_failure() {
    let mut outbox = Outbox::new(vec![3, 1]);
    assert_eq!(outbox.next(Ok(())).unwrap(), Some(3));
    match outbox.next(Err("channel closed".to_string())) {
        Err(BybitError::ChannelSendError { underlying }) => assert_eq!(underlying, "channel closed"),
        _ => panic!("no error"),
    }
}

struct Sink {
    seen: Vec<u64>,
}

impl EventSink for Sink {
    fn decode(&self, update: Value) -> Option<WebsocketEvents> {
        let ts = update["ts"].as_u64()?;
        let data = Ticker::Spot(SpotTickerData { body: update });
        Some(WebsocketEvents::TickerEvent(WsTicker { ts, data }))
    }

    fn on_event(&mut self, event: WebsocketEvents) -> Result<(), BybitError> {
        for ticker in take_timed_tickers(event) {
            if ticker.time == 0 {
                return Err(BybitError::Base("zero".to_string()));
            }
            self.seen.push(ticker.time);
        }
        Ok(())
    }
}

#[test]
fn events_reach_the_sink() {
    let mut sink = Sink { seen: Vec::new() };
    assert!(sink.handle_msg("{\"ts\":5}").is_ok());
    assert!(sink.handle_msg(" {\"ts\": 6} ").is_ok());
    assert_eq!(sink.seen, vec![5, 6]);
}

#[test]
fn other_messages_are_passed_over() {
    let mut sink = Sink { seen: Vec::new() };
    assert!(sink.handle_msg("{\"success\":true}").is_ok());
    assert!(sink.handle_msg("[]").is_ok());
    assert!(sink.seen.is_empty());
}

#[test]
fn messages_that_are_no_json_are_errors() {
    let mut sink = Sink { seen: Vec::new() };
    for msg in ["", "{", "ping", "{} {}"] {
        assert!(matches!(sink.handle_msg(msg), Err(BybitError::Json(_))));
    }
    assert!(sink.seen.is_empty());
}

#[test]
fn errors_of_the_sink_are_passed_on() {
    let mut sink = Sink { seen: Vec::new() };
    match sink.handle_msg("{\"ts\":0}") {
        Err(BybitError::Base(text)) => assert_eq!(text, "zero"),
        _ => panic!("no error"),
    }
}

#[test]
fn a_feed_sends_what_it_takes() {
    let run = |room: usize| {
        let mut sent: Vec<Value> = Vec::new();
        for event in vec![trade_event(), linear_event(), trade_event()] {
            let mut outbox = Outbox::new(take_trades(event));
            let mut last = Ok(());
            loop {
                match outbox.next(last) {
                    Ok(Some(trade)) if sent.len() < room => {
                        sent.push(trade.body);
                        last = Ok(());
                    }
                    Ok(Some(_)) => last = Err("closed".to_string()),
                    Ok(None) => break,
                    Err(_) => return sent,
                }
            }
        }
        sent
    };
    let all = vec![body(1), body(2), body(3), body(1), body(2), body(3)];
    assert_eq!(run(100), all);
    assert_eq!(run(4), all[..4].to_vec());
}

#[test]
fn the_item_that_could_not_be_sent_is_not_delivered() {
    for k in 0usize..3 {
        let mut outbox = Outbox::new(vec![10, 11, 12]);
        let (mut handed_out, mut delivered) = (Vec::new(), Vec::new());
        let mut last = Ok(());
        loop {
            match outbox.next(last) {
                Ok(Some(item)) => {
                    handed_out.push(item);
                    if delivered.len() < k {
                        delivered.push(item);
                        last = Ok(());
                    } else {
                        last = Err("closed".to_string());
                    }
                }
                Ok(None) => panic!("no failure"),
                Err(_) => break,
            }
        }
        assert_eq!(delivered, [10, 11, 12][..k].to_vec());
        assert_eq!(handed_out, [10, 11, 12][..k + 1].to_vec());
    }
}

#[test]
fn what_the_reader_reported_is_handed_on() {
    let mut sink = Sink { seen: Vec::new() };
    let error = serde_json::from_str::<Value>("{\"ts\":").unwrap_err();
    let told = error.to_string();
    match handle_parsed(&mut sink, Err(error)) {
        Err(BybitError::Json(error)) => assert_eq!(error.to_string(), told),
        _ => panic!("no error"),
    }
    match sink.handle_msg("{\"ts\":") {
        Err(BybitError::Json(error)) => assert_eq!(error.to_string(), told),
        _ => panic!("no error"),
    }
    let update = serde_json::from_str::<Value>("{\"ts\":7}");
    assert!(handle_parsed(&mut sink, update).is_ok());
    assert_eq!(sink.seen, vec![7]);
}
