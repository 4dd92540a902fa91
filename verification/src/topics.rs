//! The topics that a connection can be subscribed to.
use vstd::prelude::*;
use vstd::string::StringExecFns;
use crate::request::Category;
use crate::text::{
    before_dot, behind_dot, in_capitals, law_signed_decimal_is_read_back, lemma_dot, names_signed,
    number_read, signed_decimal, signed_decimal_text, string_texts, to_uppercase,
};

verus! {

/// The order book of `symbol`, `depth` levels deep.
pub open spec fn orderbook_topic(depth: int, symbol: Seq<char>) -> Seq<char> {
    "orderbook."@ + signed_decimal(depth) + "."@ + in_capitals(symbol)
}

/// The public trades in `symbol`.
pub open spec fn trade_topic(symbol: Seq<char>) -> Seq<char> {
    "publicTrade."@ + in_capitals(symbol)
}

/// The ticker of `symbol`.
pub open spec fn ticker_topic(symbol: Seq<char>) -> Seq<char> {
    "tickers."@ + in_capitals(symbol)
}

/// The liquidations in `symbol`.
pub open spec fn liquidation_topic(symbol: Seq<char>) -> Seq<char> {
    "liquidation."@ + in_capitals(symbol)
}

/// The candles of `symbol` for an interval.
pub open spec fn kline_topic(interval: Seq<char>, symbol: Seq<char>) -> Seq<char> {
    "kline."@ + interval + "."@ + in_capitals(symbol)
}

/// The positions in a category, or in all. Spot and options have no topic of their own: theirs
/// is empty.
pub open spec fn position_topic(category: Option<Category>) -> Seq<char> {
    match category {
        None => "position"@,
        Some(Category::Linear) => "position.linear"@,
        Some(Category::Inverse) => "position.inverse"@,
        Some(Category::Spot) | Some(Category::Option) => ""@,
    }
}

/// The executions in a category, or in all.
pub open spec fn execution_topic(category: Option<Category>) -> Seq<char> {
    match category {
        None => "execution"@,
        Some(Category::Linear) => "execution.linear"@,
        Some(Category::Inverse) => "execution.inverse"@,
        Some(Category::Spot) => "execution.spot"@,
        Some(Category::Option) => "execution.option"@,
    }
}

/// The orders in a category, or in all.
pub open spec fn order_topic(category: Option<Category>) -> Seq<char> {
    match category {
        None => "order"@,
        Some(Category::Linear) => "order.linear"@,
        Some(Category::Inverse) => "order.inverse"@,
        Some(Category::Spot) => "order.spot"@,
        Some(Category::Option) => "order.option"@,
    }
}

/// The topics of order books, one for each pair of a depth and a symbol.
pub open spec fn orderbook_topics(subs: Seq<(i32, &str)>) -> Seq<Seq<char>> {
    subs.map_values(|sub: (i32, &str)| orderbook_topic(sub.0 as int, sub.1@))
}

/// The topics of the trades in each symbol.
pub open spec fn trade_topics(subs: Seq<&str>) -> Seq<Seq<char>> {
    subs.map_values(|symbol: &str| trade_topic(symbol@))
}

/// The topics of the tickers of each symbol.
pub open spec fn ticker_topics(subs: Seq<&str>) -> Seq<Seq<char>> {
    subs.map_values(|symbol: &str| ticker_topic(symbol@))
}

/// The topics of the liquidations in each symbol.
pub open spec fn liquidation_topics(subs: Seq<&str>) -> Seq<Seq<char>> {
    subs.map_values(|symbol: &str| liquidation_topic(symbol@))
}

/// The topics of candles, one for each pair of an interval and a symbol.
pub open spec fn kline_topics(subs: Seq<(String, String)>) -> Seq<Seq<char>> {
    subs.map_values(|sub: (String, String)| kline_topic(sub.0@, sub.1@))
}

/// Each symbol in capitals, behind `prefix`.
fn prefixed(prefix: &str, subs: &Vec<&str>) -> (topics: Vec<String>)
    ensures
        topics.len() == subs.len(),
        forall|i: int|
            0 <= i < topics.len() ==> #[trigger] topics[i]@ == prefix@ + in_capitals(subs[i]@),
{
    let mut topics: Vec<String> = Vec::new();
    for i in 0..subs.len()
        invariant
            topics.len() == i,
            forall|j: int|
                0 <= j < i ==> #[trigger] topics[j]@ == prefix@ + in_capitals(subs[j]@),
    {
        topics.push(prefix.to_owned().concat(to_uppercase(subs[i]).as_str()));
    }
    topics
}

/// The topics of the order books, in the order of `subs`.
pub(crate) fn build_orderbook_topics(subs: &Vec<(i32, &str)>) -> (topics: Vec<String>)
    ensures
        string_texts(topics@) == orderbook_topics(subs@),
{
    let mut topics: Vec<String> = Vec::new();
    for i in 0..subs.len()
        invariant
            topics.len() == i,
            forall|j: int|
                0 <= j < i ==> #[trigger] topics[j]@ == orderbook_topic(
                    subs[j].0 as int,
                    subs[j].1@,
                ),
    {
        let (depth, symbol): (i32, &str) = subs[i];
        let book = "orderbook.".to_owned().concat(signed_decimal_text(depth).as_str());
        topics.push(book.concat(".").concat(to_uppercase(symbol).as_str()));
    }
    assert(string_texts(topics@) =~= orderbook_topics(subs@));
    topics
}

/// The topics of the trades, in the order of `subs`.
pub(crate) fn build_trade_topics(subs: &Vec<&str>) -> (topics: Vec<String>)
    ensures
        string_texts(topics@) == trade_topics(subs@),
{
    let topics = prefixed("publicTrade.", subs);
    assert(string_texts(topics@) =~= trade_topics(subs@));
    topics
}

/// The topics of the tickers, in the order of `subs`.
pub(crate) fn build_ticker_topics(subs: &Vec<&str>) -> (topics: Vec<String>)
    ensures
        string_texts(topics@) == ticker_topics(subs@),
{
    let topics = prefixed("tickers.", subs);
    assert(string_texts(topics@) =~= ticker_topics(subs@));
    topics
}

/// The topics of the liquidations, in the order of `subs`.
pub(crate) fn build_liquidation_topics(subs: &Vec<&str>) -> (topics: Vec<String>)
    ensures
        string_texts(topics@) == liquidation_topics(subs@),
{
    let topics = prefixed("liquidation.", subs);
    assert(string_texts(topics@) =~= liquidation_topics(subs@));
    topics
}

/// The topics of the candles, in the order of `subs`.
pub(crate) fn build_kline_topics(subs: &Vec<(String, String)>) -> (topics: Vec<String>)
    ensures
        string_texts(topics@) == kline_topics(subs@),
{
    let mut topics: Vec<String> = Vec::new();
    for i in 0..subs.len()
        invariant
            topics.len() == i,
            forall|j: int|
                0 <= j < i ==> #[trigger] topics[j]@ == kline_topic(subs[j].0@, subs[j].1@),
    {
        let (interval, symbol) = &subs[i];
        let candles = "kline.".to_owned().concat(interval.as_str());
        topics.push(candles.concat(".").concat(to_uppercase(symbol.as_str()).as_str()));
    }
    assert(string_texts(topics@) =~= kline_topics(subs@));
    topics
}

/// The topic of the positions in a category, or in all.
pub(crate) fn choose_position_topic(category: Option<Category>) -> (topic: &'static str)
    ensures
        topic@ == position_topic(category),
{
    match category {
        Some(Category::Linear) => "position.linear",
        Some(Category::Inverse) => "position.inverse",
        Some(_) => "",
        None => "position",
    }
}

/// The topic of the executions in a category, or in all.
pub(crate) fn choose_execution_topic(category: Option<Category>) -> (topic: &'static str)
    ensures
        topic@ == execution_topic(category),
{
    match category {
        Some(Category::Linear) => "execution.linear",
        Some(Category::Inverse) => "execution.inverse",
        Some(Category::Spot) => "execution.spot",
        Some(Category::Option) => "execution.option",
        None => "execution",
    }
}

/// The topic of the orders in a category, or in all.
pub(crate) fn choose_order_topic(category: Option<Category>) -> (topic: &'static str)
    ensures
        topic@ == order_topic(category),
{
    match category {
        Some(Category::Linear) => "order.linear",
        Some(Category::Inverse) => "order.inverse",
        Some(Category::Spot) => "order.spot",
        Some(Category::Option) => "order.option",
        None => "order",
    }
}

/// The name of a category.
pub open spec fn category_name(category: Category) -> Seq<char> {
    match category {
        Category::Linear => "linear"@,
        Category::Inverse => "inverse"@,
        Category::Spot => "spot"@,
        Category::Option => "option"@,
    }
}

/// `topic` is the topic `kind` in the category: its name, where a category is given, stands behind a
/// dot, and otherwise there is no dot.
pub open spec fn names_category(
    topic: Seq<char>,
    kind: Seq<char>,
    category: Option<Category>,
) -> bool {
    &&& before_dot(topic) == kind
    &&& match category {
        Some(category) => topic.contains('.') && behind_dot(topic) == category_name(category),
        None => topic == kind,
    }
}

/// The topic of an order book reads `orderbook`, the depth and the symbol in capitals, with dots
/// between them.
pub proof fn law_orderbook_topic_names_its_parts(depth: int, symbol: Seq<char>)
    ensures
        before_dot(orderbook_topic(depth, symbol)) == "orderbook"@,
        number_read(before_dot(behind_dot(orderbook_topic(depth, symbol)))) == depth,
        names_signed(before_dot(behind_dot(orderbook_topic(depth, symbol))), depth),
        behind_dot(behind_dot(orderbook_topic(depth, symbol))) == in_capitals(symbol),
{
    reveal_strlit("orderbook");
    reveal_strlit("orderbook.");
    reveal_strlit(".");
    law_signed_decimal_is_read_back(depth);
    let rest = signed_decimal(depth) + seq!['.'] + in_capitals(symbol);
    assert(orderbook_topic(depth, symbol) =~= "orderbook"@ + seq!['.'] + rest);
    lemma_dot("orderbook"@, rest);
    lemma_dot(signed_decimal(depth), in_capitals(symbol));
}

/// Order books of different depths have different topics, and so have those of symbols that differ
/// in capitals.
pub proof fn law_orderbook_topics_differ(
    depth: int,
    symbol: Seq<char>,
    other_depth: int,
    other_symbol: Seq<char>,
)
    ensures
        orderbook_topic(depth, symbol) == orderbook_topic(other_depth, other_symbol) <==> depth
            == other_depth && in_capitals(symbol) == in_capitals(other_symbol),
{
    law_orderbook_topic_names_its_parts(depth, symbol);
    law_orderbook_topic_names_its_parts(other_depth, other_symbol);
}

/// The topic of the trades in a symbol reads `publicTrade`, a dot and the symbol in capitals.
pub proof fn law_trade_topic_names_its_parts(symbol: Seq<char>)
    ensures
        before_dot(trade_topic(symbol)) == "publicTrade"@,
        behind_dot(trade_topic(symbol)) == in_capitals(symbol),
{
    reveal_strlit("publicTrade");
    reveal_strlit("publicTrade.");
    assert(trade_topic(symbol) =~= "publicTrade"@ + seq!['.'] + in_capitals(symbol));
    lemma_dot("publicTrade"@, in_capitals(symbol));
}

/// The topic of the ticker of a symbol reads `tickers`, a dot and the symbol in capitals.
pub proof fn law_ticker_topic_names_its_parts(symbol: Seq<char>)
    ensures
        before_dot(ticker_topic(symbol)) == "tickers"@,
        behind_dot(ticker_topic(symbol)) == in_capitals(symbol),
{
    reveal_strlit("tickers");
    reveal_strlit("tickers.");
    assert(ticker_topic(symbol) =~= "tickers"@ + seq!['.'] + in_capitals(symbol));
    lemma_dot("tickers"@, in_capitals(symbol));
}

/// The topic of the liquidations in a symbol reads `liquidation`, a dot and the symbol in capitals.
pub proof fn law_liquidation_topic_names_its_parts(symbol: Seq<char>)
    ensures
        before_dot(liquidation_topic(symbol)) == "liquidation"@,
        behind_dot(liquidation_topic(symbol)) == in_capitals(symbol),
{
    reveal_strlit("liquidation");
    reveal_strlit("liquidation.");
    assert(liquidation_topic(symbol) =~= "liquidation"@ + seq!['.'] + in_capitals(symbol));
    lemma_dot("liquidation"@, in_capitals(symbol));
}

/// The topic of candles reads `kline`, a dot, the interval as it was given, a dot and the symbol in
/// capitals.
pub proof fn law_kline_topic_names_its_parts(interval: Seq<char>, symbol: Seq<char>)
    ensures
        ({
            let topic = kline_topic(interval, symbol);
            let n = interval.len() as int;
            &&& before_dot(topic) == "kline"@
            &&& behind_dot(topic).len() > n
            &&& behind_dot(topic).take(n) == interval
            &&& behind_dot(topic)[n] == '.'
            &&& behind_dot(topic).skip(n + 1) == in_capitals(symbol)
        }),
{
    reveal_strlit("kline");
    reveal_strlit("kline.");
    reveal_strlit(".");
    let rest = interval + seq!['.'] + in_capitals(symbol);
    assert(kline_topic(interval, symbol) =~= "kline"@ + seq!['.'] + rest);
    lemma_dot("kline"@, rest);
    assert(rest.take(interval.len() as int) =~= interval);
    assert(rest.skip(interval.len() as int + 1) =~= in_capitals(symbol));
}

/// A text without dots is all before the first one.
proof fn lemma_no_dot(text: Seq<char>)
    requires
        forall|i: int| 0 <= i < text.len() ==> #[trigger] text[i] != '.',
    ensures
        before_dot(text) == text,
    decreases text.len(),
{
    if text.len() > 0 {
        lemma_no_dot(text.drop_first());
        assert(seq![text[0]] + text.drop_first() =~= text);
    }
}

/// A topic that is made of a kind, a dot and the name of a category names that category.
proof fn lemma_names_category(topic: Seq<char>, kind: Seq<char>, category: Category)
    requires
        topic == kind + seq!['.'] + category_name(category),
        forall|i: int| 0 <= i < kind.len() ==> #[trigger] kind[i] != '.',
    ensures
        names_category(topic, kind, Some(category)),
{
    lemma_dot(kind, category_name(category));
    assert(topic[kind.len() as int] == '.');
}

/// The private topics name the category that was asked for. Positions in spot and options have no
/// topic.
pub proof fn law_private_topics_name_their_category(category: Option<Category>)
    ensures
        if category == Some(Category::Spot) || category == Some(Category::Option) {
            position_topic(category).len() == 0
        } else {
            names_category(position_topic(category), "position"@, category)
        },
        names_category(execution_topic(category), "execution"@, category),
        names_category(order_topic(category), "order"@, category),
{
    reveal_strlit("");
    reveal_strlit("linear");
    reveal_strlit("inverse");
    reveal_strlit("spot");
    reveal_strlit("option");
    reveal_strlit("position");
    reveal_strlit("position.linear");
    reveal_strlit("position.inverse");
    reveal_strlit("execution");
    reveal_strlit("execution.linear");
    reveal_strlit("execution.inverse");
    reveal_strlit("execution.spot");
    reveal_strlit("execution.option");
    reveal_strlit("order");
    reveal_strlit("order.linear");
    reveal_strlit("order.inverse");
    reveal_strlit("order.spot");
    reveal_strlit("order.option");
    match category {
        Some(category) => {
            if category == Category::Linear || category == Category::Inverse {
                assert(position_topic(Some(category)) =~= "position"@ + seq!['.'] + category_name(
                    category,
                ));
                lemma_names_category(position_topic(Some(category)), "position"@, category);
            } else {
                assert(position_topic(Some(category)).len() == 0);
            }
            assert(execution_topic(Some(category)) =~= "execution"@ + seq!['.'] + category_name(
                category,
            ));
            lemma_names_category(execution_topic(Some(category)), "execution"@, category);
            assert(order_topic(Some(category)) =~= "order"@ + seq!['.'] + category_name(category));
            lemma_names_category(order_topic(Some(category)), "order"@, category);
        },
        None => {
            lemma_no_dot("position"@);
            lemma_no_dot("execution"@);
            lemma_no_dot("order"@);
        },
    }
}

} // verus!
