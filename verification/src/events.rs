//! The events that arrive on a connection, and what each feed takes from them.
use vstd::prelude::*;
use crate::outbox::{
    goes_on, law_run_is_delivered_in_order, law_run_stops_at_a_failure, run_delivered, went_well,
};
use crate::table::Fields;

verus! {

/// A value and the time, in milliseconds, that it is of.
pub struct Timed<T> {
    pub time: u64,
    pub data: T,
}

/// A change of an order book.
pub struct OrderBookUpdate {
    pub body: serde_json::Value,
}

/// A public trade.
pub struct WsTrade {
    pub body: serde_json::Value,
}

/// Public trades that arrived together.
pub struct TradeUpdate {
    pub data: Vec<WsTrade>,
}

/// The whole state of a linear ticker.
pub struct LinearTickerDataSnapshot {
    pub symbol: String,
    pub fields: Fields,
}

/// The part of a linear ticker that changed.
pub struct LinearTickerDataDelta {
    pub symbol: String,
    pub fields: Fields,
}

/// The state of a linear ticker, whole or changed.
pub enum LinearTickerData {
    Snapshot(LinearTickerDataSnapshot),
    Delta(LinearTickerDataDelta),
}

/// The state of a spot ticker.
pub struct SpotTickerData {
    pub body: serde_json::Value,
}

/// The state of a ticker.
pub enum Ticker {
    Linear(LinearTickerData),
    Spot(SpotTickerData),
}

/// A ticker and the time that it is of.
pub struct WsTicker {
    pub ts: u64,
    pub data: Ticker,
}

/// A liquidated position.
pub struct LiquidationData {
    pub body: serde_json::Value,
}

/// A liquidation that was announced.
pub struct Liquidation {
    pub data: LiquidationData,
}

/// Candles that changed.
pub struct WsKline {
    pub body: serde_json::Value,
}

/// A position.
pub struct PositionData {
    pub body: serde_json::Value,
}

/// Positions that changed together.
pub struct PositionUpdate {
    pub data: Vec<PositionData>,
}

/// An execution.
pub struct ExecutionData {
    pub body: serde_json::Value,
}

/// Executions that arrived together.
pub struct ExecutionUpdate {
    pub data: Vec<ExecutionData>,
}

/// An execution, in short.
pub struct FastExecData {
    pub body: serde_json::Value,
}

/// Executions, in short, that arrived together.
pub struct FastExecUpdate {
    pub data: Vec<FastExecData>,
}

/// An order.
pub struct OrderData {
    pub body: serde_json::Value,
}

/// Orders that changed together.
pub struct OrderUpdate {
    pub data: Vec<OrderData>,
}

/// A wallet.
pub struct WalletData {
    pub body: serde_json::Value,
}

/// Wallets that changed together.
pub struct WalletUpdate {
    pub data: Vec<WalletData>,
}

/// What arrives on a connection.
pub enum WebsocketEvents {
    OrderBookEvent(OrderBookUpdate),
    TradeEvent(TradeUpdate),
    TickerEvent(WsTicker),
    LiquidationEvent(Liquidation),
    KlineEvent(WsKline),
    PositionEvent(PositionUpdate),
    ExecutionEvent(ExecutionUpdate),
    FastExecEvent(FastExecUpdate),
    OrderEvent(OrderUpdate),
    Wallet(WalletUpdate),
}

/// What the order book feed takes from an event.
pub open spec fn order_books(event: WebsocketEvents) -> Seq<OrderBookUpdate> {
    match event {
        WebsocketEvents::OrderBookEvent(order_book) => seq![order_book],
        _ => seq![],
    }
}

/// What the trade feed takes from an event.
pub open spec fn trades(event: WebsocketEvents) -> Seq<WsTrade> {
    match event {
        WebsocketEvents::TradeEvent(update) => update.data@,
        _ => seq![],
    }
}

/// What the liquidation feed takes from an event.
pub open spec fn liquidations(event: WebsocketEvents) -> Seq<LiquidationData> {
    match event {
        WebsocketEvents::LiquidationEvent(liquidation) => seq![liquidation.data],
        _ => seq![],
    }
}

/// What the candle feed takes from an event.
pub open spec fn klines(event: WebsocketEvents) -> Seq<WsKline> {
    match event {
        WebsocketEvents::KlineEvent(kline) => seq![kline],
        _ => seq![],
    }
}

/// What the position feed takes from an event.
pub open spec fn positions(event: WebsocketEvents) -> Seq<PositionData> {
    match event {
        WebsocketEvents::PositionEvent(update) => update.data@,
        _ => seq![],
    }
}

/// What the execution feed takes from an event.
pub open spec fn executions(event: WebsocketEvents) -> Seq<ExecutionData> {
    match event {
        WebsocketEvents::ExecutionEvent(update) => update.data@,
        _ => seq![],
    }
}

/// What the feed of executions in short takes from an event.
pub open spec fn fast_executions(event: WebsocketEvents) -> Seq<FastExecData> {
    match event {
        WebsocketEvents::FastExecEvent(update) => update.data@,
        _ => seq![],
    }
}

/// What the order feed takes from an event.
pub open spec fn orders(event: WebsocketEvents) -> Seq<OrderData> {
    match event {
        WebsocketEvents::OrderEvent(update) => update.data@,
        _ => seq![],
    }
}

/// What the wallet feed takes from an event.
pub open spec fn wallets(event: WebsocketEvents) -> Seq<WalletData> {
    match event {
        WebsocketEvents::Wallet(update) => update.data@,
        _ => seq![],
    }
}

/// What a ticker feed sends of a ticker: its state alone.
pub open spec fn plain_ticker(ticker: WsTicker) -> Option<Ticker> {
    Some(ticker.data)
}

/// What a timed ticker feed sends of a ticker: its state and the time.
pub open spec fn timed_ticker(ticker: WsTicker) -> Option<Timed<Ticker>> {
    Some(Timed { time: ticker.ts, data: ticker.data })
}

/// What a timed linear ticker feed sends of a ticker: the state of a linear one and the time, and
/// nothing of a spot one.
pub open spec fn timed_linear_ticker(ticker: WsTicker) -> Option<Timed<LinearTickerData>> {
    match ticker.data {
        Ticker::Linear(linear) => Some(Timed { time: ticker.ts, data: linear }),
        Ticker::Spot(_) => None,
    }
}

/// The item, if there is one.
pub open spec fn items<T>(item: Option<T>) -> Seq<T> {
    match item {
        Some(t) => seq![t],
        None => seq![],
    }
}

/// What a ticker feed takes from an event, where it sends `pick` of each ticker.
pub open spec fn tickers<T>(
    event: WebsocketEvents,
    pick: spec_fn(WsTicker) -> Option<T>,
) -> Seq<T> {
    match event {
        WebsocketEvents::TickerEvent(ticker) => items(pick(ticker)),
        _ => seq![],
    }
}

/// The order book changes to send on.
pub fn take_order_books(event: WebsocketEvents) -> (taken: Vec<OrderBookUpdate>)
    ensures
        taken@ == order_books(event),
{
    match event {
        WebsocketEvents::OrderBookEvent(order_book) => vec![order_book],
        _ => Vec::new(),
    }
}

/// The trades to send on, in their order.
pub fn take_trades(event: WebsocketEvents) -> (taken: Vec<WsTrade>)
    ensures
        taken@ == trades(event),
{
    match event {
        WebsocketEvents::TradeEvent(update) => update.data,
        _ => Vec::new(),
    }
}

/// What to send on of a ticker: what `filter_map` makes of it, if anything.
pub fn take_tickers<T, F: Fn(WsTicker) -> Option<T>>(event: WebsocketEvents, filter_map: F) -> (taken:
    Vec<T>)
    requires
        event matches WebsocketEvents::TickerEvent(ticker) ==> call_requires(filter_map, (ticker,)),
    ensures
        match event {
            WebsocketEvents::TickerEvent(ticker) => exists|item: Option<T>|
                #[trigger] call_ensures(filter_map, (ticker,), item) && taken@ == items(item),
            _ => taken@ == Seq::<T>::empty(),
        },
{
    match event {
        WebsocketEvents::TickerEvent(ticker) => {
            match filter_map(ticker) {
                Some(mapped) => vec![mapped],
                None => Vec::new(),
            }
        },
        _ => Vec::new(),
    }
}

fn pick_plain(ticker: WsTicker) -> (item: Option<Ticker>)
    ensures
        item == plain_ticker(ticker),
{
    Some(ticker.data)
}

fn pick_timed(ticker: WsTicker) -> (item: Option<Timed<Ticker>>)
    ensures
        item == timed_ticker(ticker),
{
    Some(Timed { time: ticker.ts, data: ticker.data })
}

fn pick_timed_linear(ticker: WsTicker) -> (item: Option<Timed<LinearTickerData>>)
    ensures
        item == timed_linear_ticker(ticker),
{
    match ticker.data {
        Ticker::Linear(linear) => Some(Timed { time: ticker.ts, data: linear }),
        Ticker::Spot(_) => None,
    }
}

/// The ticker states to send on.
pub fn take_plain_tickers(event: WebsocketEvents) -> (taken: Vec<Ticker>)
    ensures
        taken@ == tickers(event, |ticker: WsTicker| plain_ticker(ticker)),
{
    take_tickers(event, pick_plain)
}

/// The ticker states to send on, with their times.
pub fn take_timed_tickers(event: WebsocketEvents) -> (taken: Vec<Timed<Ticker>>)
    ensures
        taken@ == tickers(event, |ticker: WsTicker| timed_ticker(ticker)),
{
    take_tickers(event, pick_timed)
}

/// The states of linear tickers to send on, with their times.
pub fn take_timed_linear_tickers(event: WebsocketEvents) -> (taken: Vec<Timed<LinearTickerData>>)
    ensures
        taken@ == tickers(event, |ticker: WsTicker| timed_linear_ticker(ticker)),
{
    take_tickers(event, pick_timed_linear)
}

/// The liquidations to send on.
pub fn take_liquidations(event: WebsocketEvents) -> (taken: Vec<LiquidationData>)
    ensures
        taken@ == liquidations(event),
{
    match event {
        WebsocketEvents::LiquidationEvent(liquidation) => vec![liquidation.data],
        _ => Vec::new(),
    }
}

/// The candles to send on.
pub fn take_klines(event: WebsocketEvents) -> (taken: Vec<WsKline>)
    ensures
        taken@ == klines(event),
{
    match event {
        WebsocketEvents::KlineEvent(kline) => vec![kline],
        _ => Vec::new(),
    }
}

/// The positions to send on, in their order.
pub fn take_positions(event: WebsocketEvents) -> (taken: Vec<PositionData>)
    ensures
        taken@ == positions(event),
{
    match event {
        WebsocketEvents::PositionEvent(update) => update.data,
        _ => Vec::new(),
    }
}

/// The executions to send on, in their order.
pub fn take_executions(event: WebsocketEvents) -> (taken: Vec<ExecutionData>)
    ensures
        taken@ == executions(event),
{
    match event {
        WebsocketEvents::ExecutionEvent(update) => update.data,
        _ => Vec::new(),
    }
}

/// The executions in short to send on, in their order.
pub fn take_fast_executions(event: WebsocketEvents) -> (taken: Vec<FastExecData>)
    ensures
        taken@ == fast_executions(event),
{
    match event {
        WebsocketEvents::FastExecEvent(update) => update.data,
        _ => Vec::new(),
    }
}

/// The orders to send on, in their order.
pub fn take_orders(event: WebsocketEvents) -> (taken: Vec<OrderData>)
    ensures
        taken@ == orders(event),
{
    match event {
        WebsocketEvents::OrderEvent(update) => update.data,
        _ => Vec::new(),
    }
}

/// The wallets to send on, in their order.
pub fn take_wallets(event: WebsocketEvents) -> (taken: Vec<WalletData>)
    ensures
        taken@ == wallets(event),
{
    match event {
        WebsocketEvents::Wallet(update) => update.data,
        _ => Vec::new(),
    }
}

/// From an event of its kind the trade feed takes every trade of the message, each at its place; from any other
/// event it takes nothing.
pub proof fn law_every_trade_is_taken(event: WebsocketEvents, taken: Vec<WsTrade>)
    requires
        call_ensures(take_trades, (event,), taken),
    ensures
        event matches WebsocketEvents::TradeEvent(update) ==> {
            &&& taken@.len() == update.data@.len()
            &&& forall|i: int| 0 <= i < update.data@.len() ==> #[trigger] taken@[i] == update.data@[i]
        },
        event !is TradeEvent ==> taken@.len() == 0,
{
}

/// From an event of its kind the position feed takes every position of the message, each at its place; from any other
/// event it takes nothing.
pub proof fn law_every_position_is_taken(event: WebsocketEvents, taken: Vec<PositionData>)
    requires
        call_ensures(take_positions, (event,), taken),
    ensures
        event matches WebsocketEvents::PositionEvent(update) ==> {
            &&& taken@.len() == update.data@.len()
            &&& forall|i: int| 0 <= i < update.data@.len() ==> #[trigger] taken@[i] == update.data@[i]
        },
        event !is PositionEvent ==> taken@.len() == 0,
{
}

/// From an event of its kind the execution feed takes every execution of the message, each at its place; from any other
/// event it takes nothing.
pub proof fn law_every_execution_is_taken(event: WebsocketEvents, taken: Vec<ExecutionData>)
    requires
        call_ensures(take_executions, (event,), taken),
    ensures
        event matches WebsocketEvents::ExecutionEvent(update) ==> {
            &&& taken@.len() == update.data@.len()
            &&& forall|i: int| 0 <= i < update.data@.len() ==> #[trigger] taken@[i] == update.data@[i]
        },
        event !is ExecutionEvent ==> taken@.len() == 0,
{
}

/// From an event of its kind the fast execution feed takes every execution of the message, each at its place; from any other
/// event it takes nothing.
pub proof fn law_every_fast_execution_is_taken(event: WebsocketEvents, taken: Vec<FastExecData>)
    requires
        call_ensures(take_fast_executions, (event,), taken),
    ensures
        event matches WebsocketEvents::FastExecEvent(update) ==> {
            &&& taken@.len() == update.data@.len()
            &&& forall|i: int| 0 <= i < update.data@.len() ==> #[trigger] taken@[i] == update.data@[i]
        },
        event !is FastExecEvent ==> taken@.len() == 0,
{
}

/// From an event of its kind the order feed takes every order of the message, each at its place; from any other
/// event it takes nothing.
pub proof fn law_every_order_is_taken(event: WebsocketEvents, taken: Vec<OrderData>)
    requires
        call_ensures(take_orders, (event,), taken),
    ensures
        event matches WebsocketEvents::OrderEvent(update) ==> {
            &&& taken@.len() == update.data@.len()
            &&& forall|i: int| 0 <= i < update.data@.len() ==> #[trigger] taken@[i] == update.data@[i]
        },
        event !is OrderEvent ==> taken@.len() == 0,
{
}

/// From an event of its kind the wallet feed takes every wallet of the message, each at its place; from any other
/// event it takes nothing.
pub proof fn law_every_wallet_is_taken(event: WebsocketEvents, taken: Vec<WalletData>)
    requires
        call_ensures(take_wallets, (event,), taken),
    ensures
        event matches WebsocketEvents::Wallet(update) ==> {
            &&& taken@.len() == update.data@.len()
            &&& forall|i: int| 0 <= i < update.data@.len() ==> #[trigger] taken@[i] == update.data@[i]
        },
        event !is Wallet ==> taken@.len() == 0,
{
}

/// From an event of its kind the order book feed takes exactly what it announces; from any other event
/// it takes nothing.
pub proof fn law_every_order_book_is_taken(event: WebsocketEvents, taken: Vec<OrderBookUpdate>)
    requires
        call_ensures(take_order_books, (event,), taken),
    ensures
        event matches WebsocketEvents::OrderBookEvent(announced) ==> taken@.len() == 1 && taken@[0]
            == announced,
        event !is OrderBookEvent ==> taken@.len() == 0,
{
}

/// From an event of its kind the liquidation feed takes exactly what it announces; from any other event
/// it takes nothing.
pub proof fn law_every_liquidation_is_taken(event: WebsocketEvents, taken: Vec<LiquidationData>)
    requires
        call_ensures(take_liquidations, (event,), taken),
    ensures
        event matches WebsocketEvents::LiquidationEvent(announced) ==> taken@.len() == 1 && taken@[0]
            == announced.data,
        event !is LiquidationEvent ==> taken@.len() == 0,
{
}

/// From an event of its kind the candle feed takes exactly what it announces; from any other event
/// it takes nothing.
pub proof fn law_every_candle_is_taken(event: WebsocketEvents, taken: Vec<WsKline>)
    requires
        call_ensures(take_klines, (event,), taken),
    ensures
        event matches WebsocketEvents::KlineEvent(announced) ==> taken@.len() == 1 && taken@[0]
            == announced,
        event !is KlineEvent ==> taken@.len() == 0,
{
}

/// From every ticker, linear or spot, whole or changed, the ticker feed takes its state; from any
/// other event it takes nothing.
pub proof fn law_every_ticker_is_taken(event: WebsocketEvents, taken: Vec<Ticker>)
    requires
        call_ensures(take_plain_tickers, (event,), taken),
    ensures
        event matches WebsocketEvents::TickerEvent(ticker) ==> taken@.len() == 1 && taken@[0]
            == ticker.data,
        event !is TickerEvent ==> taken@.len() == 0,
{
}

/// From every ticker, linear or spot, whole or changed, the timed ticker feed takes its state with
/// the time that it is of; from any other event it takes nothing.
pub proof fn law_every_timed_ticker_is_taken(event: WebsocketEvents, taken: Vec<Timed<Ticker>>)
    requires
        call_ensures(take_timed_tickers, (event,), taken),
    ensures
        event matches WebsocketEvents::TickerEvent(ticker) ==> {
            &&& taken@.len() == 1
            &&& taken@[0].data == ticker.data
            &&& taken@[0].time == ticker.ts
        },
        event !is TickerEvent ==> taken@.len() == 0,
{
}

/// From every linear ticker, a whole state and a change alike, the timed linear feed takes its state
/// with the time that it is of; from a spot ticker and from any other event it takes nothing.
pub proof fn law_every_linear_ticker_is_taken(
    event: WebsocketEvents,
    taken: Vec<Timed<LinearTickerData>>,
)
    requires
        call_ensures(take_timed_linear_tickers, (event,), taken),
    ensures
        event matches WebsocketEvents::TickerEvent(ticker) ==> match ticker.data {
            Ticker::Linear(linear) => {
                &&& taken@.len() == 1
                &&& taken@[0].data == linear
                &&& taken@[0].time == ticker.ts
            },
            Ticker::Spot(_) => taken@.len() == 0,
        },
        event !is TickerEvent ==> taken@.len() == 0,
{
}

/// From every ticker a feed with a filter of its own takes what the filter makes of it, if
/// anything; from any other event it takes nothing.
pub proof fn law_filter_decides<T, F: Fn(WsTicker) -> Option<T>>(
    event: WebsocketEvents,
    filter_map: F,
    taken: Vec<T>,
)
    requires
        call_ensures(take_tickers::<T, F>, (event, filter_map), taken),
    ensures
        event matches WebsocketEvents::TickerEvent(ticker) ==> exists|item: Option<T>| #[trigger]
            call_ensures(filter_map, (ticker,), item) && match item {
                Some(t) => taken@.len() == 1 && taken@[0] == t,
                None => taken@.len() == 0,
            },
        event !is TickerEvent ==> taken@.len() == 0,
{
}

/// A feed takes something only from the events of its own kind: what is announced on one feed
/// never turns up on another.
pub proof fn law_feeds_are_separate(event: WebsocketEvents)
    ensures
        order_books(event).len() > 0 ==> event is OrderBookEvent,
        trades(event).len() > 0 ==> event is TradeEvent,
        tickers(event, |ticker: WsTicker| plain_ticker(ticker)).len() > 0 ==> event is TickerEvent,
        tickers(event, |ticker: WsTicker| timed_ticker(ticker)).len() > 0 ==> event is TickerEvent,
        tickers(event, |ticker: WsTicker| timed_linear_ticker(ticker)).len() > 0
            ==> event is TickerEvent,
        liquidations(event).len() > 0 ==> event is LiquidationEvent,
        klines(event).len() > 0 ==> event is KlineEvent,
        positions(event).len() > 0 ==> event is PositionEvent,
        executions(event).len() > 0 ==> event is ExecutionEvent,
        fast_executions(event).len() > 0 ==> event is FastExecEvent,
        orders(event).len() > 0 ==> event is OrderEvent,
        wallets(event).len() > 0 ==> event is Wallet,
{
}

/// The timed ticker feed sends what the plain one sends, and the timed linear feed sends what the
/// timed one sends, save for spot tickers.
pub proof fn law_ticker_feeds_agree(event: WebsocketEvents)
    ensures
        tickers(event, |ticker: WsTicker| timed_ticker(ticker)).map_values(
            |timed: Timed<Ticker>| timed.data,
        ) == tickers(event, |ticker: WsTicker| plain_ticker(ticker)),
        tickers(event, |ticker: WsTicker| timed_linear_ticker(ticker)).map_values(
            |timed: Timed<LinearTickerData>|
                Timed { time: timed.time, data: Ticker::Linear(timed.data) },
        ) == tickers(event, |ticker: WsTicker| timed_ticker(ticker)).filter(
            |timed: Timed<Ticker>| timed.data is Linear,
        ),
{
    let timed = tickers(event, |ticker: WsTicker| timed_ticker(ticker));
    let plain = tickers(event, |ticker: WsTicker| plain_ticker(ticker));
    assert(timed.map_values(|timed: Timed<Ticker>| timed.data) =~= plain);
    let linear = tickers(event, |ticker: WsTicker| timed_linear_ticker(ticker));
    let is_linear = |timed: Timed<Ticker>| timed.data is Linear;
    reveal_with_fuel(Seq::filter, 2);
    if timed.len() > 0 {
        assert(timed.drop_last() =~= seq![]);
    }
    assert(linear.map_values(
        |timed: Timed<LinearTickerData>|
            Timed { time: timed.time, data: Ticker::Linear(timed.data) },
    ) =~= timed.filter(is_linear));
}

/// Over a run a feed that takes `take` of each event delivers what it takes, one event after the
/// other, in their order: all of it where every send goes well, and otherwise a beginning of it,
/// since the run ends with the event that a send fails for. `oks[i]` are the outcomes for the event
/// at `i`, that at its start and those of its sends.
pub proof fn law_feed_delivers_what_it_takes<T>(
    take: spec_fn(WebsocketEvents) -> Seq<T>,
    events: Seq<WebsocketEvents>,
    oks: Seq<Seq<bool>>,
)
    requires
        goes_on(events.map_values(take), oks),
    ensures
        ({
            let taken = events.map_values(take);
            let delivered = run_delivered(taken, oks);
            &&& delivered.is_prefix_of(taken.flatten())
            &&& events.len() == 0 || went_well(take(events.last()), oks.last()) ==> delivered
                == taken.flatten()
        }),
{
    law_run_is_delivered_in_order(events.map_values(take), oks);
}

/// Where a send of a feed fails, what was delivered over the run is all that was taken from the
/// earlier events, and then the first `k` items of the last event, whose sends went well.
pub proof fn law_feed_stops_at_a_failure<T>(
    take: spec_fn(WebsocketEvents) -> Seq<T>,
    events: Seq<WebsocketEvents>,
    oks: Seq<Seq<bool>>,
    k: int,
)
    requires
        goes_on(events.map_values(take), oks),
        events.len() > 0,
        0 <= k < take(events.last()).len(),
        k + 1 < oks.last().len(),
        forall|i: int| 0 <= i <= k ==> oks.last()[i],
        !oks.last()[k + 1],
    ensures
        run_delivered(events.map_values(take), oks) == events.drop_last().map_values(take).flatten()
            + take(events.last()).take(k),
{
    law_run_stops_at_a_failure(events.map_values(take), oks, k);
    assert(events.map_values(take).drop_last() =~= events.drop_last().map_values(take));
}

} // verus!
