//! The sessions that a client can open.
use vstd::prelude::*;
use vstd::string::StringExecFns;
use crate::ambient::{
    counts_millis, generate_random_uid, get_timestamp, is_uid, law_timestamp_counts_millis,
    read_from_clock, timestamp, timestamp_of,
};
use crate::error::{BybitError, ErrorView};
use crate::event_loop::{Action, ActionView, EventLoop, Frame};
use crate::json::{json_parse, JsonTree};
use crate::request::{
    carries, law_ping_is_read_back, law_subscription_is_read_back, lemma_reads_as_orders,
    ping_request, pings, places_orders, places_orders_at, reads_as_orders, subscribes,
    subscription_text, texts, trade_text, trade_tree, Category, RequestType, Subscription,
    WebsocketAPI, ORDER_ID_LENGTH, REQUEST_ID_LENGTH,
};
use crate::text::{
    before_dot, behind_dot, in_capitals, names_signed, number_read, string_texts,
};
use crate::topics::{
    build_kline_topics, build_liquidation_topics, build_orderbook_topics, build_ticker_topics,
    build_trade_topics, choose_execution_topic, choose_order_topic, choose_position_topic,
    execution_topic, kline_topics, law_kline_topic_names_its_parts,
    law_liquidation_topic_names_its_parts, law_orderbook_topic_names_its_parts,
    law_private_topics_name_their_category, law_ticker_topic_names_its_parts,
    law_trade_topic_names_its_parts, liquidation_topics, names_category, order_topic,
    orderbook_topics, position_topic, ticker_topic, ticker_topics, trade_topics,
};

verus! {

/// How long a private connection is kept alive.
pub const PRIVATE_ALIVE: u16 = 10;

/// Who opens the sessions.
#[derive(Clone, Debug)]
pub struct Client {
    pub api_key: Option<String>,
    pub secret: Option<String>,
}

/// Opens sessions for a client.
#[derive(Clone, Debug)]
pub struct Stream {
    pub client: Client,
}

/// What a connection is opened to, and how.
pub struct Connection {
    pub endpoint: WebsocketAPI,
    /// What is sent as soon as the connection stands.
    pub request: Option<String>,
    /// The client has to prove who it is.
    pub private: bool,
    pub alive: Option<u16>,
}

/// Where the public feeds of a category are. Those of options are nowhere.
pub open spec fn public_endpoint(category: Category) -> Option<WebsocketAPI> {
    match category {
        Category::Linear => Some(WebsocketAPI::PublicLinear),
        Category::Inverse => Some(WebsocketAPI::PublicInverse),
        Category::Spot => Some(WebsocketAPI::PublicSpot),
        Category::Option => None,
    }
}

/// Each category that has public feeds has an endpoint of its own for them.
pub proof fn law_public_endpoints_differ(one: Category, other: Category)
    requires
        public_endpoint(one) is Some,
        public_endpoint(one) == public_endpoint(other),
    ensures
        one == other,
{
}

impl Connection {
    /// The connection is opened to the public feeds of `category`, and asks for `op` on the
    /// topics in `args`.
    pub open spec fn is_public(self, category: Category, op: Seq<char>, args: Seq<Seq<char>>) -> bool {
        &&& public_endpoint(category) == Some(self.endpoint)
        &&& self.request matches Some(text) && subscribes(text@, op, args)
        &&& !self.private
        &&& self.alive is None
    }

    /// The connection is opened to the private feeds, and asks for `op` on the topics in `args`.
    pub open spec fn is_private(self, op: Seq<char>, args: Seq<Seq<char>>) -> bool {
        &&& self.endpoint == WebsocketAPI::Private
        &&& self.request matches Some(text) && subscribes(text@, op, args)
        &&& self.private
        &&& self.alive == Some(PRIVATE_ALIVE)
    }
}

/// What the first message after a ping means: an error, or a text that has to be a pong, or
/// nothing.
pub open spec fn ping_outcome(reply: Option<Result<Frame, String>>) -> Result<
    Option<Seq<char>>,
    ErrorView,
> {
    match reply {
        None => Err(ErrorView::Base("Failed to receive ping response"@)),
        Some(Err(text)) => Err(
            ErrorView::Base("Failed to get ping response, error "@ + text@),
        ),
        Some(Ok(Frame::Text(text))) => Ok(Some(text@)),
        Some(Ok(Frame::Other)) => Ok(None),
    }
}

/// The strings as they are borrowed.
fn borrowed(strings: &Vec<String>) -> (names: Vec<&str>)
    ensures
        texts(names@) == string_texts(strings@),
{
    let mut names: Vec<&str> = Vec::new();
    for i in 0..strings.len()
        invariant
            names.len() == i,
            forall|j: int| 0 <= j < i ==> #[trigger] names[j]@ == strings[j]@,
    {
        names.push(strings[i].as_str());
    }
    assert(texts(names@) =~= string_texts(strings@));
    names
}

impl Stream {
    /// The connection for a ping, to the private or to a public endpoint.
    pub fn ws_ping(&self, private: bool) -> (connection: Connection)
        ensures
            connection.endpoint == if private {
                WebsocketAPI::Private
            } else {
                WebsocketAPI::PublicLinear
            },
            connection.request matches Some(text) && pings(text@),
            connection.private == private,
            connection.alive is None,
    {
        let endpoint = if private {
            WebsocketAPI::Private
        } else {
            WebsocketAPI::PublicLinear
        };
        Connection { endpoint, request: Some(ping_request()), private, alive: None }
    }

    /// What the first message after a ping means. The text that is given, if any, has to be a
    /// pong.
    pub fn ping_reply(reply: Option<Result<Frame, String>>) -> (r: Result<Option<String>, BybitError>)
        ensures
            match (r, ping_outcome(reply)) {
                (Ok(Some(text)), Ok(Some(expected))) => text@ == expected,
                (Ok(None), Ok(None)) => true,
                (Err(error), Err(expected)) => error@ == expected,
                _ => false,
            },
    {
        match reply {
            None => Err(BybitError::base("Failed to receive ping response")),
            Some(Err(text)) => {
                let words = "Failed to get ping response, error ".to_owned();
                Err(BybitError::Base(words.concat(text.as_str())))
            },
            Some(Ok(Frame::Text(text))) => Ok(Some(text)),
            Some(Ok(Frame::Other)) => Ok(None),
        }
    }

    /// What a ping ends with, where the answer `text` was read as a pong with the outcome `pong`:
    /// the answer, or the error of one that is no pong.
    pub fn pong_outcome(text: String, pong: Result<(), serde_json::Error>) -> (r: Result<
        String,
        BybitError,
    >)
        ensures
            match pong {
                Ok(()) => r == Ok::<String, BybitError>(text),
                Err(error) => r == Err::<String, BybitError>(BybitError::Json(error)),
            },
    {
        match pong {
            Ok(()) => Ok(text),
            Err(error) => Err(BybitError::Json(error)),
        }
    }

    /// The connection for a subscription to private topics.
    pub fn ws_priv_subscribe(&self, req: Subscription) -> (connection: Connection)
        ensures
            connection.is_private(req.op@, texts(req.args@)),
    {
        let request = Self::build_subscription(req);
        Connection {
            endpoint: WebsocketAPI::Private,
            request: Some(request),
            private: true,
            alive: Some(PRIVATE_ALIVE),
        }
    }

    /// What a private session ends with, where its loop ends with `_outcome`: how the loop
    /// ended is not passed on.
    pub fn priv_outcome(_outcome: Result<(), BybitError>) -> (r: Result<(), BybitError>)
        ensures
            r is Ok,
    {
        Ok(())
    }

    /// What a public or a trading session ends with, where its loop ends with `outcome`: just that.
    pub fn public_outcome(outcome: Result<(), BybitError>) -> (r: Result<(), BybitError>)
        ensures
            r == outcome,
    {
        outcome
    }

    /// What a session on timed linear tickers ends with, where all its states were sent on and the
    /// loop behind them ended with `_outcome`: how the loop ended is not passed on.
    pub fn linear_outcome(_outcome: Result<(), BybitError>) -> (r: Result<(), BybitError>)
        ensures
            r is Ok,
    {
        Ok(())
    }

    /// The connection for a subscription to public topics.
    pub fn ws_subscribe(&self, req: Subscription, category: Category) -> (connection: Connection)
        requires
            category != Category::Option,
        ensures
            connection.is_public(category, req.op@, texts(req.args@)),
    {
        let endpoint = match category {
            Category::Linear => WebsocketAPI::PublicLinear,
            Category::Inverse => WebsocketAPI::PublicInverse,
            _ => WebsocketAPI::PublicSpot,
        };
        let request = Self::build_subscription(req);
        Connection { endpoint, request: Some(request), private: false, alive: None }
    }

    /// The text of a subscription, with a random identifier.
    pub fn build_subscription(action: Subscription) -> (text: String)
        ensures
            subscribes(text@, action.op@, texts(action.args@)),
    {
        subscription_text(generate_random_uid(REQUEST_ID_LENGTH), action)
    }

    /// The text of an order request, with a random identifier and the time of day. Where
    /// `recv_window` is not given it stays valid for five seconds.
    pub fn build_trade_subscription(orders: RequestType, recv_window: Option<u64>) -> (text: String)
        ensures
            places_orders(text@, orders, recv_window),
    {
        trade_text(generate_random_uid(ORDER_ID_LENGTH), get_timestamp(), orders, recv_window)
    }

    /// The text of an order request that is made at `time`, with a random identifier.
    pub fn build_trade_subscription_at(
        time: &std::time::SystemTime,
        orders: RequestType,
        recv_window: Option<u64>,
    ) -> (text: String)
        ensures
            places_orders_at(text@, timestamp(*time), orders, recv_window),
    {
        trade_text(generate_random_uid(ORDER_ID_LENGTH), timestamp_of(time), orders, recv_window)
    }

    /// Order books, each a depth and a symbol.
    pub fn ws_orderbook(&self, subs: Vec<(i32, &str)>, category: Category) -> (connection:
        Connection)
        requires
            category != Category::Option,
        ensures
            connection.is_public(category, "subscribe"@, orderbook_topics(subs@)),
    {
        let topics = build_orderbook_topics(&subs);
        self.ws_subscribe(Subscription::new("subscribe", borrowed(&topics)), category)
    }

    /// The public trades in each symbol.
    pub fn ws_trades(&self, subs: Vec<&str>, category: Category) -> (connection: Connection)
        requires
            category != Category::Option,
        ensures
            connection.is_public(category, "subscribe"@, trade_topics(subs@)),
    {
        let topics = build_trade_topics(&subs);
        self.ws_subscribe(Subscription::new("subscribe", borrowed(&topics)), category)
    }

    /// The tickers of each symbol.
    pub fn ws_tickers(&self, subs: Vec<&str>, category: Category) -> (connection: Connection)
        requires
            category != Category::Option,
        ensures
            connection.is_public(category, "subscribe"@, ticker_topics(subs@)),
    {
        let topics = build_ticker_topics(&subs);
        self.ws_subscribe(Subscription::new("subscribe", borrowed(&topics)), category)
    }

    /// The tickers of each symbol, with their times: the same connection as for the tickers alone.
    pub fn ws_timed_tickers(&self, subs: Vec<&str>, category: Category) -> (connection: Connection)
        requires
            category != Category::Option,
        ensures
            connection.is_public(category, "subscribe"@, ticker_topics(subs@)),
    {
        self.ws_tickers(subs, category)
    }

    /// The states of linear tickers: the connection for the linear tickers of each symbol.
    pub fn ws_timed_linear_tickers(&self, subs: Vec<String>) -> (connection: Connection)
        ensures
            connection.is_public(
                Category::Linear,
                "subscribe"@,
                string_texts(subs@).map_values(|symbol: Seq<char>| ticker_topic(symbol)),
            ),
    {
        let names = borrowed(&subs);
        proof {
            assert(ticker_topics(names@) =~= texts(names@).map_values(
                |symbol: Seq<char>| ticker_topic(symbol),
            ));
        }
        self.ws_tickers(names, Category::Linear)
    }

    /// The liquidations in each symbol.
    pub fn ws_liquidations(&self, subs: Vec<&str>, category: Category) -> (connection: Connection)
        requires
            category != Category::Option,
        ensures
            connection.is_public(category, "subscribe"@, liquidation_topics(subs@)),
    {
        let topics = build_liquidation_topics(&subs);
        self.ws_subscribe(Subscription::new("subscribe", borrowed(&topics)), category)
    }

    /// Candles, each an interval and a symbol.
    pub fn ws_klines(&self, subs: Vec<(String, String)>, category: Category) -> (connection:
        Connection)
        requires
            category != Category::Option,
        ensures
            connection.is_public(category, "subscribe"@, kline_topics(subs@)),
    {
        let topics = build_kline_topics(&subs);
        self.ws_subscribe(Subscription::new("subscribe", borrowed(&topics)), category)
    }

    /// One private topic.
    fn private_topic(&self, topic: &str) -> (connection: Connection)
        ensures
            connection.is_private("subscribe"@, seq![topic@]),
    {
        let args: Vec<&str> = vec![topic];
        assert(texts(args@) =~= seq![topic@]);
        self.ws_priv_subscribe(Subscription::new("subscribe", args))
    }

    /// The positions in a category, or in all.
    pub fn ws_position(&self, cat: Option<Category>) -> (connection: Connection)
        ensures
            connection.is_private("subscribe"@, seq![position_topic(cat)]),
    {
        self.private_topic(choose_position_topic(cat))
    }

    /// The executions in a category, or in all.
    pub fn ws_executions(&self, cat: Option<Category>) -> (connection: Connection)
        ensures
            connection.is_private("subscribe"@, seq![execution_topic(cat)]),
    {
        self.private_topic(choose_execution_topic(cat))
    }

    /// The executions, in short.
    pub fn ws_fast_exec(&self) -> (connection: Connection)
        ensures
            connection.is_private("subscribe"@, seq!["execution.fast"@]),
    {
        self.private_topic("execution.fast")
    }

    /// The orders in a category, or in all.
    pub fn ws_orders(&self, cat: Option<Category>) -> (connection: Connection)
        ensures
            connection.is_private("subscribe"@, seq![order_topic(cat)]),
    {
        self.private_topic(choose_order_topic(cat))
    }

    /// The wallets.
    pub fn ws_wallet(&self) -> (connection: Connection)
        ensures
            connection.is_private("subscribe"@, seq!["wallet"@]),
    {
        self.private_topic("wallet")
    }

    /// The connection that orders are sent over. Nothing is asked for to begin with.
    pub fn ws_trade_stream(&self) -> (connection: Connection)
        ensures
            connection.endpoint == WebsocketAPI::TradeStream,
            connection.request is None,
            connection.private,
            connection.alive == Some(PRIVATE_ALIVE),
    {
        Connection {
            endpoint: WebsocketAPI::TradeStream,
            request: None,
            private: true,
            alive: Some(PRIVATE_ALIVE),
        }
    }

    /// The loop that serves a connection, as it begins, and what it does first. It takes orders
    /// where `trading` says so.
    pub fn event_loop(trading: bool) -> (r: (EventLoop, Action))
        ensures
            r.0 == EventLoop::begun(trading),
            r.1@ == ActionView::Receive,
    {
        (EventLoop { trading, last_ping: 0 }, Action::Receive)
    }
}

/// Whoever reads the request of `connection` finds the operation `op` on `topics`, each at its place,
/// an identifier of eight letters and digits, and nothing else.
pub open spec fn asks_for(connection: Connection, op: Seq<char>, topics: Seq<Seq<char>>) -> bool {
    &&& connection.request matches Some(text) && (json_parse(text@) matches Some(
        JsonTree::Object(fields),
    ) && {
        &&& fields.dom() == set!["op"@, "req_id"@, "args"@]
        &&& fields["op"@] == JsonTree::Str(op)
        &&& fields["req_id"@] matches JsonTree::Str(id) && is_uid(id, 8)
        &&& fields["args"@] matches JsonTree::Array(items) && {
            &&& items.len() == topics.len()
            &&& forall|i: int|
                0 <= i < items.len() ==> #[trigger] items[i] == JsonTree::Str(topics[i])
        }
    })
}

/// The connection goes to where the public feeds of `category` are, and takes no proof of who the
/// client is.
pub open spec fn opens_public_feeds(connection: Connection, category: Category) -> bool {
    &&& category is Linear ==> connection.endpoint is PublicLinear
    &&& category is Inverse ==> connection.endpoint is PublicInverse
    &&& category is Spot ==> connection.endpoint is PublicSpot
    &&& category !is Option
    &&& !connection.private
    &&& connection.alive is None
}

/// The connection goes to where the private feeds are, proves who the client is, and is kept alive
/// for ten.
pub open spec fn opens_private_feeds(connection: Connection) -> bool {
    &&& connection.endpoint is Private
    &&& connection.private
    &&& connection.alive == Some(10u16)
}

/// A connection that subscribes to topics asks for them.
proof fn lemma_asks_for(connection: Connection, op: Seq<char>, topics: Seq<Seq<char>>)
    requires
        connection.request matches Some(text) && subscribes(text@, op, topics),
    ensures
        asks_for(connection, op, topics),
{
    let text = connection.request->Some_0@;
    law_subscription_is_read_back(text, op, topics);
}

/// A subscription to public topics goes to the feeds of its category, and asks for the operation and
/// the topics that it names, each at its place.
pub proof fn law_public_subscription(
    stream: Stream,
    req: Subscription,
    category: Category,
    connection: Connection,
)
    requires
        category != Category::Option,
        call_ensures(Stream::ws_subscribe, (&stream, req, category), connection),
    ensures
        opens_public_feeds(connection, category),
        asks_for(connection, req.op@, Seq::new(req.args@.len(), |i: int| req.args@[i]@)),
{
    lemma_asks_for(connection, req.op@, texts(req.args@));
    assert(texts(req.args@) =~= Seq::new(req.args@.len(), |i: int| req.args@[i]@));
}

/// A subscription to private topics goes to the private feeds, and asks for the operation and the
/// topics that it names, each at its place.
pub proof fn law_private_subscription(stream: Stream, req: Subscription, connection: Connection)
    requires
        call_ensures(Stream::ws_priv_subscribe, (&stream, req), connection),
    ensures
        opens_private_feeds(connection),
        asks_for(connection, req.op@, Seq::new(req.args@.len(), |i: int| req.args@[i]@)),
{
    lemma_asks_for(connection, req.op@, texts(req.args@));
    assert(texts(req.args@) =~= Seq::new(req.args@.len(), |i: int| req.args@[i]@));
}

/// Whoever reads a subscription that is built finds the operation and the topics that were asked
/// for, each at its place, an identifier of eight letters and digits, and nothing else.
pub proof fn law_built_subscription(action: Subscription, text: String, connection: Connection)
    requires
        call_ensures(Stream::build_subscription, (action,), text),
        connection.request == Some(text),
    ensures
        asks_for(connection, action.op@, Seq::new(action.args@.len(), |i: int| action.args@[i]@)),
{
    lemma_asks_for(connection, action.op@, texts(action.args@));
    assert(texts(action.args@) =~= Seq::new(action.args@.len(), |i: int| action.args@[i]@));
}

/// Order books are subscribed to at the depth and for the symbol that were asked for: each topic
/// reads `orderbook`, then the depth, then the symbol in capitals, with dots between them.
pub proof fn law_order_books_are_asked_for(
    stream: Stream,
    subs: Vec<(i32, &str)>,
    category: Category,
    connection: Connection,
)
    requires
        category != Category::Option,
        call_ensures(Stream::ws_orderbook, (&stream, subs, category), connection),
    ensures
        opens_public_feeds(connection, category),
        exists|topics: Seq<Seq<char>>| #[trigger]
            asks_for(connection, "subscribe"@, topics) && topics.len() == subs@.len() && forall|i: int|
                0 <= i < topics.len() ==> {
                    let topic = #[trigger] topics[i];
                    &&& before_dot(topic) == "orderbook"@
                    &&& number_read(before_dot(behind_dot(topic))) == subs@[i].0
                    &&& names_signed(before_dot(behind_dot(topic)), subs@[i].0 as int)
                    &&& behind_dot(behind_dot(topic)) == in_capitals(subs@[i].1@)
                },
{
    let topics = orderbook_topics(subs@);
    lemma_asks_for(connection, "subscribe"@, topics);
    assert forall|i: int| 0 <= i < topics.len() implies {
        let topic = #[trigger] topics[i];
        &&& before_dot(topic) == "orderbook"@
        &&& number_read(before_dot(behind_dot(topic))) == subs@[i].0
        &&& names_signed(before_dot(behind_dot(topic)), subs@[i].0 as int)
        &&& behind_dot(behind_dot(topic)) == in_capitals(subs@[i].1@)
    } by {
        law_orderbook_topic_names_its_parts(subs@[i].0 as int, subs@[i].1@);
    }
}

/// Trades are subscribed to for each symbol that was asked for, in capitals.
pub proof fn law_trades_are_asked_for(
    stream: Stream,
    subs: Vec<&str>,
    category: Category,
    connection: Connection,
)
    requires
        category != Category::Option,
        call_ensures(Stream::ws_trades, (&stream, subs, category), connection),
    ensures
        opens_public_feeds(connection, category),
        exists|topics: Seq<Seq<char>>| #[trigger]
            asks_for(connection, "subscribe"@, topics) && topics.len() == subs@.len() && forall|i: int|
                0 <= i < topics.len() ==> {
                    let topic = #[trigger] topics[i];
                    &&& before_dot(topic) == "publicTrade"@
                    &&& behind_dot(topic) == in_capitals(subs@[i]@)
                },
{
    let topics = trade_topics(subs@);
    lemma_asks_for(connection, "subscribe"@, topics);
    assert forall|i: int| 0 <= i < topics.len() implies {
        let topic = #[trigger] topics[i];
        &&& before_dot(topic) == "publicTrade"@
        &&& behind_dot(topic) == in_capitals(subs@[i]@)
    } by {
        law_trade_topic_names_its_parts(subs@[i]@);
    }
}

/// Tickers are subscribed to for each symbol that was asked for, in capitals.
pub proof fn law_tickers_are_asked_for(
    stream: Stream,
    subs: Vec<&str>,
    category: Category,
    connection: Connection,
)
    requires
        category != Category::Option,
        call_ensures(Stream::ws_tickers, (&stream, subs, category), connection),
    ensures
        opens_public_feeds(connection, category),
        exists|topics: Seq<Seq<char>>| #[trigger]
            asks_for(connection, "subscribe"@, topics) && topics.len() == subs@.len() && forall|i: int|
                0 <= i < topics.len() ==> {
                    let topic = #[trigger] topics[i];
                    &&& before_dot(topic) == "tickers"@
                    &&& behind_dot(topic) == in_capitals(subs@[i]@)
                },
{
    let topics = ticker_topics(subs@);
    lemma_asks_for(connection, "subscribe"@, topics);
    assert forall|i: int| 0 <= i < topics.len() implies {
        let topic = #[trigger] topics[i];
        &&& before_dot(topic) == "tickers"@
        &&& behind_dot(topic) == in_capitals(subs@[i]@)
    } by {
        law_ticker_topic_names_its_parts(subs@[i]@);
    }
}

/// Timed tickers are subscribed to for each symbol that was asked for, in capitals.
pub proof fn law_timed_tickers_are_asked_for(
    stream: Stream,
    subs: Vec<&str>,
    category: Category,
    connection: Connection,
)
    requires
        category != Category::Option,
        call_ensures(Stream::ws_timed_tickers, (&stream, subs, category), connection),
    ensures
        opens_public_feeds(connection, category),
        exists|topics: Seq<Seq<char>>| #[trigger]
            asks_for(connection, "subscribe"@, topics) && topics.len() == subs@.len() && forall|i: int|
                0 <= i < topics.len() ==> {
                    let topic = #[trigger] topics[i];
                    &&& before_dot(topic) == "tickers"@
                    &&& behind_dot(topic) == in_capitals(subs@[i]@)
                },
{
    let topics = ticker_topics(subs@);
    lemma_asks_for(connection, "subscribe"@, topics);
    assert forall|i: int| 0 <= i < topics.len() implies {
        let topic = #[trigger] topics[i];
        &&& before_dot(topic) == "tickers"@
        &&& behind_dot(topic) == in_capitals(subs@[i]@)
    } by {
        law_ticker_topic_names_its_parts(subs@[i]@);
    }
}

/// The states of linear tickers come of the linear tickers of each symbol that was asked for, in
/// capitals.
pub proof fn law_linear_tickers_are_asked_for(
    stream: Stream,
    subs: Vec<String>,
    connection: Connection,
)
    requires
        call_ensures(Stream::ws_timed_linear_tickers, (&stream, subs), connection),
    ensures
        opens_public_feeds(connection, Category::Linear),
        exists|topics: Seq<Seq<char>>| #[trigger]
            asks_for(connection, "subscribe"@, topics) && topics.len() == subs@.len() && forall|i: int|
                0 <= i < topics.len() ==> {
                    let topic = #[trigger] topics[i];
                    &&& before_dot(topic) == "tickers"@
                    &&& behind_dot(topic) == in_capitals(subs@[i]@)
                },
{
    let topics = string_texts(subs@).map_values(|symbol: Seq<char>| ticker_topic(symbol));
    lemma_asks_for(connection, "subscribe"@, topics);
    assert forall|i: int| 0 <= i < topics.len() implies {
        let topic = #[trigger] topics[i];
        &&& before_dot(topic) == "tickers"@
        &&& behind_dot(topic) == in_capitals(subs@[i]@)
    } by {
        law_ticker_topic_names_its_parts(subs@[i]@);
    }
}

/// Liquidations are subscribed to for each symbol that was asked for, in capitals.
pub proof fn law_liquidations_are_asked_for(
    stream: Stream,
    subs: Vec<&str>,
    category: Category,
    connection: Connection,
)
    requires
        category != Category::Option,
        call_ensures(Stream::ws_liquidations, (&stream, subs, category), connection),
    ensures
        opens_public_feeds(connection, category),
        exists|topics: Seq<Seq<char>>| #[trigger]
            asks_for(connection, "subscribe"@, topics) && topics.len() == subs@.len() && forall|i: int|
                0 <= i < topics.len() ==> {
                    let topic = #[trigger] topics[i];
                    &&& before_dot(topic) == "liquidation"@
                    &&& behind_dot(topic) == in_capitals(subs@[i]@)
                },
{
    let topics = liquidation_topics(subs@);
    lemma_asks_for(connection, "subscribe"@, topics);
    assert forall|i: int| 0 <= i < topics.len() implies {
        let topic = #[trigger] topics[i];
        &&& before_dot(topic) == "liquidation"@
        &&& behind_dot(topic) == in_capitals(subs@[i]@)
    } by {
        law_liquidation_topic_names_its_parts(subs@[i]@);
    }
}

/// Candles are subscribed to for the interval and the symbol that were asked for: each topic reads
/// `kline`, a dot, the interval as it was given, a dot and the symbol in capitals.
pub proof fn law_candles_are_asked_for(
    stream: Stream,
    subs: Vec<(String, String)>,
    category: Category,
    connection: Connection,
)
    requires
        category != Category::Option,
        call_ensures(Stream::ws_klines, (&stream, subs, category), connection),
    ensures
        opens_public_feeds(connection, category),
        exists|topics: Seq<Seq<char>>| #[trigger]
            asks_for(connection, "subscribe"@, topics) && topics.len() == subs@.len() && forall|i: int|
                0 <= i < topics.len() ==> {
                    let topic = #[trigger] topics[i];
                    let interval = subs@[i].0@;
                    let n = interval.len() as int;
                    &&& before_dot(topic) == "kline"@
                    &&& behind_dot(topic).len() > n
                    &&& behind_dot(topic).take(n) == interval
                    &&& behind_dot(topic)[n] == '.'
                    &&& behind_dot(topic).skip(n + 1) == in_capitals(subs@[i].1@)
                },
{
    let topics = kline_topics(subs@);
    lemma_asks_for(connection, "subscribe"@, topics);
    assert forall|i: int| 0 <= i < topics.len() implies {
        let topic = #[trigger] topics[i];
        let interval = subs@[i].0@;
        let n = interval.len() as int;
        &&& before_dot(topic) == "kline"@
        &&& behind_dot(topic).len() > n
        &&& behind_dot(topic).take(n) == interval
        &&& behind_dot(topic)[n] == '.'
        &&& behind_dot(topic).skip(n + 1) == in_capitals(subs@[i].1@)
    } by {
        law_kline_topic_names_its_parts(subs@[i].0@, subs@[i].1@);
    }
}

/// Of the positions, executions and orders, one topic is subscribed to: of all where no category is
/// asked for, and otherwise of that category. Positions in spot and options have no topic.
pub proof fn law_private_topics_are_asked_for(
    stream: Stream,
    cat: Option<Category>,
    positions: Connection,
    executions: Connection,
    orders: Connection,
)
    requires
        call_ensures(Stream::ws_position, (&stream, cat), positions),
        call_ensures(Stream::ws_executions, (&stream, cat), executions),
        call_ensures(Stream::ws_orders, (&stream, cat), orders),
    ensures
        opens_private_feeds(positions),
        opens_private_feeds(executions),
        opens_private_feeds(orders),
        exists|topic: Seq<char>| #[trigger]
            asks_for(positions, "subscribe"@, seq![topic]) && if cat == Some(Category::Spot) || cat
                == Some(Category::Option) {
                topic.len() == 0
            } else {
                names_category(topic, "position"@, cat)
            },
        exists|topic: Seq<char>| #[trigger]
            asks_for(executions, "subscribe"@, seq![topic]) && names_category(
                topic,
                "execution"@,
                cat,
            ),
        exists|topic: Seq<char>| #[trigger]
            asks_for(orders, "subscribe"@, seq![topic]) && names_category(topic, "order"@, cat),
{
    lemma_asks_for(positions, "subscribe"@, seq![position_topic(cat)]);
    lemma_asks_for(executions, "subscribe"@, seq![execution_topic(cat)]);
    lemma_asks_for(orders, "subscribe"@, seq![order_topic(cat)]);
    law_private_topics_name_their_category(cat);
}

/// The fast executions and the wallets each have one private topic.
pub proof fn law_plain_private_topics_are_asked_for(
    stream: Stream,
    executions: Connection,
    wallets: Connection,
)
    requires
        call_ensures(Stream::ws_fast_exec, (&stream,), executions),
        call_ensures(Stream::ws_wallet, (&stream,), wallets),
    ensures
        opens_private_feeds(executions),
        asks_for(executions, "subscribe"@, seq!["execution.fast"@]),
        opens_private_feeds(wallets),
        asks_for(wallets, "subscribe"@, seq!["wallet"@]),
{
    lemma_asks_for(executions, "subscribe"@, seq!["execution.fast"@]);
    lemma_asks_for(wallets, "subscribe"@, seq!["wallet"@]);
}

/// Orders go over a connection of their own, on which nothing is asked for to begin with, and which
/// is private.
pub proof fn law_orders_have_their_own_connection(stream: Stream, connection: Connection)
    requires
        call_ensures(Stream::ws_trade_stream, (&stream,), connection),
    ensures
        connection.endpoint is TradeStream,
        connection.request is None,
        connection.private,
        connection.alive == Some(10u16),
{
}

/// A ping goes to the private endpoint just where it is private, and whoever reads it finds the
/// operation `ping` and an identifier of eight letters and digits, and nothing else.
pub proof fn law_ping_is_sent(stream: Stream, private: bool, connection: Connection)
    requires
        call_ensures(Stream::ws_ping, (&stream, private), connection),
    ensures
        private ==> connection.endpoint is Private,
        !private ==> connection.endpoint is PublicLinear,
        connection.private == private,
        connection.alive is None,
        connection.request matches Some(text) && (json_parse(text@) matches Some(
            JsonTree::Object(fields),
        ) && {
            &&& fields.dom() == set!["op"@, "req_id"@]
            &&& fields["op"@] == JsonTree::Str("ping"@)
            &&& fields["req_id"@] matches JsonTree::Str(id) && is_uid(id, 8)
        }),
{
    law_ping_is_read_back(connection.request->Some_0@);
}

/// A ping that is not answered, or whose answer fails to arrive, is an error that says so, in the
/// latter case with what went wrong at its end. A text that arrives is given as it is.
pub proof fn law_ping_replies(
    reply: Option<Result<Frame, String>>,
    r: Result<Option<String>, BybitError>,
)
    requires
        call_ensures(Stream::ping_reply, (reply,), r),
    ensures
        reply is None ==> (r matches Err(BybitError::Base(words)) && words@
            == "Failed to receive ping response"@),
        reply matches Some(Err(text)) ==> (r matches Err(BybitError::Base(words)) && words@
            == "Failed to get ping response, error "@ + text@),
        reply matches Some(Ok(Frame::Text(text))) ==> (r matches Ok(Some(given)) && given@ == text@),
        reply matches Some(Ok(Frame::Other)) ==> r matches Ok(None),
{
}

/// Whoever reads an order request that is built finds an identifier of sixteen letters and digits,
/// the operation of its kind, its own arguments, how long it stays valid, and what was read
/// from the clock as the time that it was made at.
pub proof fn law_built_orders(orders: RequestType, recv_window: Option<u64>, text: String)
    requires
        call_ensures(Stream::build_trade_subscription, (orders, recv_window), text),
    ensures
        exists|id: Seq<char>, time: std::time::SystemTime, millis: u64|
            {
                &&& is_uid(id, 16)
                &&& read_from_clock(time)
                &&& #[trigger] counts_millis(time, millis)
                &&& #[trigger] reads_as_orders(text@, id, millis, orders, recv_window)
            },
{
    lemma_placed_orders(orders, recv_window, text@);
}

/// The time that an order request names is the reading of the clock that it is made at: whoever
/// reads it finds the whole milliseconds from the start of 1970 to that reading.
pub proof fn law_orders_name_the_time_they_are_made_at(
    time: std::time::SystemTime,
    orders: RequestType,
    recv_window: Option<u64>,
    text: String,
)
    requires
        call_ensures(Stream::build_trade_subscription_at, (&time, orders, recv_window), text),
    ensures
        exists|id: Seq<char>, millis: u64|
            {
                &&& is_uid(id, 16)
                &&& counts_millis(time, millis)
                &&& #[trigger] reads_as_orders(text@, id, millis, orders, recv_window)
            },
{
    lemma_orders_at(time, orders, recv_window, text@);
}

/// An order request reads as one made at some reading of the clock.
pub(crate) proof fn lemma_placed_orders(
    orders: RequestType,
    recv_window: Option<u64>,
    text: Seq<char>,
)
    requires
        places_orders(text, orders, recv_window),
    ensures
        exists|id: Seq<char>, time: std::time::SystemTime, millis: u64|
            {
                &&& is_uid(id, 16)
                &&& read_from_clock(time)
                &&& #[trigger] counts_millis(time, millis)
                &&& #[trigger] reads_as_orders(text, id, millis, orders, recv_window)
            },
{
    let time = choose|time: std::time::SystemTime|
        read_from_clock(time) && places_orders_at(
            text,
            #[trigger] timestamp(time),
            orders,
            recv_window,
        );
    lemma_orders_at(time, orders, recv_window, text);
}

/// An order request that names a reading of the clock reads as one made at that reading.
proof fn lemma_orders_at(
    time: std::time::SystemTime,
    orders: RequestType,
    recv_window: Option<u64>,
    text: Seq<char>,
)
    requires
        places_orders_at(text, timestamp(time), orders, recv_window),
    ensures
        counts_millis(time, timestamp(time)),
        exists|id: Seq<char>|
            is_uid(id, 16) && #[trigger] reads_as_orders(
                text,
                id,
                timestamp(time),
                orders,
                recv_window,
            ),
{
    law_timestamp_counts_millis(time);
    let id = choose|id: Seq<char>|
        is_uid(id, ORDER_ID_LENGTH as nat) && carries(
            text,
            #[trigger] trade_tree(id, timestamp(time), orders, recv_window),
        );
    lemma_reads_as_orders(text, id, timestamp(time), orders, recv_window);
}

/// A public session ends as its loop does, a private one and one on timed linear tickers end well
/// however their loops do, and a ping ends with its answer, or with what the reader reported where
/// the answer is no pong.
pub proof fn law_sessions_end(
    outcome: Result<(), BybitError>,
    public: Result<(), BybitError>,
    private: Result<(), BybitError>,
    linear: Result<(), BybitError>,
    text: String,
    pong: Result<(), serde_json::Error>,
    ping: Result<String, BybitError>,
)
    requires
        call_ensures(Stream::public_outcome, (outcome,), public),
        call_ensures(Stream::priv_outcome, (outcome,), private),
        call_ensures(Stream::linear_outcome, (outcome,), linear),
        call_ensures(Stream::pong_outcome, (text, pong), ping),
    ensures
        public == outcome,
        private is Ok,
        linear is Ok,
        pong is Ok ==> (ping matches Ok(answer) && answer@ == text@),
        pong matches Err(error) ==> (ping matches Err(BybitError::Json(reported)) && reported
            == error),
{
}

/// The loop begins with waiting for a message, and with the clock at zero for the pings.
pub proof fn law_loop_begins(trading: bool, begun: (EventLoop, Action))
    requires
        call_ensures(Stream::event_loop, (trading,), begun),
    ensures
        begun.0.trading == trading,
        begun.0.last_ping == 0,
        begun.1 is Receive,
{
}

} // verus!
