//! The requests that are sent over a connection, and where they are sent.
use vstd::prelude::*;
use crate::ambient::{generate_random_uid, is_uid, read_from_clock, timestamp};
use crate::json::{
    array_value, can_be_read, insert_field, json_parse, json_text, law_reading_is_fixed,
    law_whole_numbers_are_read_back, lemma_reads_as_itself, nests, new_map, object_value,
    reading_depth, reads_as, reads_back, string_array, string_value, value_text, value_tree,
    JsonTree,
};
use crate::text::{
    decimal, decimal_text, law_decimal_is_read_back, law_decimals_differ, names_number, string_texts,
};

verus! {

/// A kind of product.
#[derive(Clone, Copy, Debug, PartialEq, Eq, Structural)]
pub enum Category {
    Linear,
    Inverse,
    Spot,
    Option,
}

/// What a connection is opened to.
#[derive(Clone, Copy, Debug, PartialEq, Eq, Structural)]
pub enum WebsocketAPI {
    PublicLinear,
    PublicInverse,
    PublicSpot,
    Private,
    TradeStream,
}

/// A request to start or to stop receiving topics.
pub struct Subscription<'a> {
    pub op: &'a str,
    pub args: Vec<&'a str>,
}

impl<'a> Subscription<'a> {
    pub fn new(op: &'a str, args: Vec<&'a str>) -> (subscription: Self)
        ensures
            subscription.op == op,
            subscription.args == args,
    {
        Subscription { op, args }
    }
}

/// A request to create, amend or cancel orders. It carries the list of its arguments, as the
/// JSON value that is sent.
pub enum RequestType {
    Create(serde_json::Value),
    CreateBatch(serde_json::Value),
    Amend(serde_json::Value),
    AmendBatch(serde_json::Value),
    Cancel(serde_json::Value),
    CancelBatch(serde_json::Value),
}

impl RequestType {
    /// The arguments that the request carries.
    pub open spec fn orders(self) -> serde_json::Value {
        match self {
            RequestType::Create(orders) => orders,
            RequestType::CreateBatch(orders) => orders,
            RequestType::Amend(orders) => orders,
            RequestType::AmendBatch(orders) => orders,
            RequestType::Cancel(orders) => orders,
            RequestType::CancelBatch(orders) => orders,
        }
    }

    /// The name of the operation that the request asks for.
    pub open spec fn op(self) -> Seq<char> {
        match self {
            RequestType::Create(_) => "order.create"@,
            RequestType::CreateBatch(_) => "order.create-batch"@,
            RequestType::Amend(_) => "order.amend"@,
            RequestType::AmendBatch(_) => "order.amend-batch"@,
            RequestType::Cancel(_) => "order.cancel"@,
            RequestType::CancelBatch(_) => "order.cancel-batch"@,
        }
    }
}

/// The requests are of the same kind, whatever their arguments.
pub open spec fn same_kind(one: RequestType, other: RequestType) -> bool {
    ||| one is Create && other is Create
    ||| one is CreateBatch && other is CreateBatch
    ||| one is Amend && other is Amend
    ||| one is AmendBatch && other is AmendBatch
    ||| one is Cancel && other is Cancel
    ||| one is CancelBatch && other is CancelBatch
}

/// The arguments of a request, as they are sent.
pub fn build_ws_orders(orders: RequestType) -> (args: serde_json::Value)
    ensures
        args == orders.orders(),
{
    match orders {
        RequestType::Create(orders) => orders,
        RequestType::CreateBatch(orders) => orders,
        RequestType::Amend(orders) => orders,
        RequestType::AmendBatch(orders) => orders,
        RequestType::Cancel(orders) => orders,
        RequestType::CancelBatch(orders) => orders,
    }
}

/// How many letters and digits the identifier of a ping or a subscription has.
pub const REQUEST_ID_LENGTH: usize = 8;

/// How many letters and digits the identifier of an order request has.
pub const ORDER_ID_LENGTH: usize = 16;

/// For how many milliseconds an order request stays valid where nothing else is asked for.
pub const DEFAULT_RECV_WINDOW: u64 = 5000;

/// A ping, with or without an identifier.
pub open spec fn ping_tree(req_id: Option<Seq<char>>) -> JsonTree {
    let ping = map!["op"@ => JsonTree::Str("ping"@)];
    match req_id {
        Some(id) => JsonTree::Object(ping.insert("req_id"@, JsonTree::Str(id))),
        None => JsonTree::Object(ping),
    }
}

/// A subscription to, or from, the topics in `args`.
pub open spec fn subscription_tree(
    req_id: Seq<char>,
    op: Seq<char>,
    args: Seq<Seq<char>>,
) -> JsonTree {
    JsonTree::Object(
        map![
            "req_id"@ => JsonTree::Str(req_id),
            "op"@ => JsonTree::Str(op),
            "args"@ => string_array(args),
        ],
    )
}

/// For how many milliseconds an order request stays valid.
pub open spec fn window(recv_window: Option<u64>) -> u64 {
    match recv_window {
        Some(millis) => millis,
        None => DEFAULT_RECV_WINDOW,
    }
}

/// The header of an order request: when it was made, and for how long it stays valid.
pub open spec fn header_tree(timestamp: u64, recv_window: Option<u64>) -> JsonTree {
    JsonTree::Object(
        map![
            "X-BAPI-TIMESTAMP"@ => JsonTree::Str(decimal(timestamp as nat)),
            "X-BAPI-RECV-WINDOW"@ => JsonTree::Str(decimal(window(recv_window) as nat)),
        ],
    )
}

/// An order request.
pub open spec fn trade_tree(
    req_id: Seq<char>,
    timestamp: u64,
    orders: RequestType,
    recv_window: Option<u64>,
) -> JsonTree {
    JsonTree::Object(
        map![
            "reqId"@ => JsonTree::Str(req_id),
            "header"@ => header_tree(timestamp, recv_window),
            "op"@ => JsonTree::Str(orders.op()),
            "args"@ => value_tree(orders.orders()),
        ],
    )
}

/// `text` is the text of `tree`, and it reads as `tree` again, fractions as they can be read.
pub open spec fn carries(text: Seq<char>, tree: JsonTree) -> bool {
    &&& text == json_text(tree)
    &&& can_be_read(text, tree)
}

/// The texts of a list of names.
pub open spec fn texts(names: Seq<&str>) -> Seq<Seq<char>> {
    names.map_values(|name: &str| name@)
}

/// `text` is a ping that carries an identifier of letters and digits.
pub open spec fn pings(text: Seq<char>) -> bool {
    exists|id: Seq<char>|
        is_uid(id, REQUEST_ID_LENGTH as nat) && carries(text, #[trigger] ping_tree(Some(id)))
}

/// `text` asks for `op` on the topics in `args` and carries an identifier of letters and digits.
pub open spec fn subscribes(text: Seq<char>, op: Seq<char>, args: Seq<Seq<char>>) -> bool {
    exists|id: Seq<char>|
        is_uid(id, REQUEST_ID_LENGTH as nat) && carries(
            text,
            #[trigger] subscription_tree(id, op, args),
        )
}

/// `text` asks for `orders`, carries an identifier of letters and digits and names `millis` as the
/// time that it was made at.
pub open spec fn places_orders_at(
    text: Seq<char>,
    millis: u64,
    orders: RequestType,
    recv_window: Option<u64>,
) -> bool {
    exists|id: Seq<char>|
        is_uid(id, ORDER_ID_LENGTH as nat) && carries(
            text,
            #[trigger] trade_tree(id, millis, orders, recv_window),
        )
}

/// `text` asks for `orders`, carries an identifier of letters and digits and names, as the time that
/// it was made at, one that was read from the clock.
pub open spec fn places_orders(text: Seq<char>, orders: RequestType, recv_window: Option<u64>) -> bool {
    exists|time: std::time::SystemTime|
        read_from_clock(time) && places_orders_at(
            text,
            #[trigger] timestamp(time),
            orders,
            recv_window,
        )
}

/// The names as strings of their own.
fn owned(names: &Vec<&str>) -> (strings: Vec<String>)
    ensures
        string_texts(strings@) == texts(names@),
{
    let mut strings: Vec<String> = Vec::new();
    for i in 0..names.len()
        invariant
            strings.len() == i,
            forall|j: int| 0 <= j < i ==> #[trigger] strings[j]@ == names[j]@,
    {
        strings.push(names[i].to_owned());
    }
    assert(string_texts(strings@) =~= texts(names@));
    strings
}

/// The text of a ping that carries `req_id`, or no identifier.
pub fn ping_text(req_id: Option<String>) -> (text: String)
    ensures
        carries(
            text@,
            ping_tree(
                match req_id {
                    Some(id) => Some(id@),
                    None => None,
                },
            ),
        ),
{
    let mut parameters = new_map();
    insert_field(&mut parameters, "op", string_value("ping".to_owned()));
    if let Some(id) = req_id {
        insert_field(&mut parameters, "req_id", string_value(id));
    }
    value_text(&object_value(parameters))
}

/// The text of the subscription `action` with the identifier `req_id`.
pub fn subscription_text(req_id: String, action: Subscription) -> (text: String)
    ensures
        carries(text@, subscription_tree(req_id@, action.op@, texts(action.args@))),
{
    let mut parameters = new_map();
    insert_field(&mut parameters, "req_id", string_value(req_id));
    insert_field(&mut parameters, "op", string_value(action.op.to_owned()));
    insert_field(&mut parameters, "args", array_value(owned(&action.args)));
    value_text(&object_value(parameters))
}

/// The text of the order request `orders`, made at `timestamp` with the identifier `req_id`.
pub fn trade_text(
    req_id: String,
    timestamp: u64,
    orders: RequestType,
    recv_window: Option<u64>,
) -> (text: String)
    ensures
        carries(text@, trade_tree(req_id@, timestamp, orders, recv_window)),
{
    let mut header = new_map();
    insert_field(&mut header, "X-BAPI-TIMESTAMP", string_value(decimal_text(timestamp)));
    let window: u64 = recv_window.unwrap_or(DEFAULT_RECV_WINDOW);
    insert_field(&mut header, "X-BAPI-RECV-WINDOW", string_value(decimal_text(window)));
    let op = match &orders {
        RequestType::Create(_) => "order.create",
        RequestType::CreateBatch(_) => "order.create-batch",
        RequestType::Amend(_) => "order.amend",
        RequestType::AmendBatch(_) => "order.amend-batch",
        RequestType::Cancel(_) => "order.cancel",
        RequestType::CancelBatch(_) => "order.cancel-batch",
    };
    let mut parameters = new_map();
    insert_field(&mut parameters, "reqId", string_value(req_id));
    insert_field(&mut parameters, "header", object_value(header));
    insert_field(&mut parameters, "op", string_value(op.to_owned()));
    insert_field(&mut parameters, "args", build_ws_orders(orders));
    value_text(&object_value(parameters))
}

/// A ping with a random identifier.
pub fn ping_request() -> (text: String)
    ensures
        pings(text@),
{
    ping_text(Some(generate_random_uid(REQUEST_ID_LENGTH)))
}

/// A text of a value whose numbers are all whole reads as that value.
proof fn lemma_carried_whole(text: Seq<char>, tree: JsonTree)
    requires
        carries(text, tree),
        reads_back(tree, reading_depth()),
    ensures
        json_parse(text) == Some(tree),
{
    lemma_reads_as_itself(tree, reading_depth());
    law_whole_numbers_are_read_back(tree, json_parse(text)->Some_0, reading_depth());
}

/// The names of the fields of a request are different from one another.
proof fn lemma_names_differ()
    ensures
        "op"@ != "req_id"@,
        "op"@ != "args"@,
        "op"@ != "header"@,
        "op"@ != "reqId"@,
        "req_id"@ != "args"@,
        "args"@ != "header"@,
        "args"@ != "reqId"@,
        "header"@ != "reqId"@,
        "X-BAPI-TIMESTAMP"@ != "X-BAPI-RECV-WINDOW"@,
{
    reveal_strlit("op");
    reveal_strlit("req_id");
    reveal_strlit("args");
    reveal_strlit("header");
    reveal_strlit("reqId");
    reveal_strlit("X-BAPI-TIMESTAMP");
    reveal_strlit("X-BAPI-RECV-WINDOW");
    assert("op"@.len() == 2);
    assert("req_id"@.len() == 6);
    assert("args"@.len() == 4);
    assert("header"@.len() == 6);
    assert("reqId"@.len() == 5);
    assert("X-BAPI-TIMESTAMP"@.len() == 16);
    assert("X-BAPI-RECV-WINDOW"@.len() == 18);
}

/// Whoever reads a ping finds the operation `ping` and an identifier of letters and digits, and
/// nothing else.
pub proof fn law_ping_is_read_back(text: Seq<char>)
    requires
        pings(text),
    ensures
        json_parse(text) matches Some(JsonTree::Object(fields)) && {
            &&& fields.dom() == set!["op"@, "req_id"@]
            &&& fields["op"@] == JsonTree::Str("ping"@)
            &&& fields["req_id"@] matches JsonTree::Str(id) && is_uid(id, REQUEST_ID_LENGTH as nat)
        },
{
    lemma_names_differ();
    let id = choose|id: Seq<char>|
        is_uid(id, REQUEST_ID_LENGTH as nat) && carries(text, #[trigger] ping_tree(Some(id)));
    reveal_with_fuel(reads_back, 2);
    lemma_carried_whole(text, ping_tree(Some(id)));
    assert(ping_tree(Some(id))->Object_0.dom() =~= set!["op"@, "req_id"@]);
}

/// Whoever reads a ping without an identifier finds the operation `ping`, and nothing else.
pub proof fn law_bare_ping_is_read_back(text: Seq<char>)
    requires
        carries(text, ping_tree(None)),
    ensures
        json_parse(text) matches Some(JsonTree::Object(fields)) && {
            &&& fields.dom() == set!["op"@]
            &&& fields["op"@] == JsonTree::Str("ping"@)
        },
{
    reveal_with_fuel(reads_back, 2);
    lemma_carried_whole(text, ping_tree(None));
    assert(ping_tree(None)->Object_0.dom() =~= set!["op"@]);
}

/// Whoever reads a subscription finds the operation and the topics that were asked for, in their
/// order, and an identifier of letters and digits, and nothing else.
pub proof fn law_subscription_is_read_back(text: Seq<char>, op: Seq<char>, args: Seq<Seq<char>>)
    requires
        subscribes(text, op, args),
    ensures
        json_parse(text) matches Some(JsonTree::Object(fields)) && {
            &&& fields.dom() == set!["op"@, "req_id"@, "args"@]
            &&& fields["op"@] == JsonTree::Str(op)
            &&& fields["args"@] == string_array(args)
            &&& fields["req_id"@] matches JsonTree::Str(id) && is_uid(id, REQUEST_ID_LENGTH as nat)
        },
{
    lemma_names_differ();
    let id = choose|id: Seq<char>|
        is_uid(id, REQUEST_ID_LENGTH as nat) && carries(
            text,
            #[trigger] subscription_tree(id, op, args),
        );
    let tree = subscription_tree(id, op, args);
    reveal_with_fuel(reads_back, 3);
    lemma_carried_whole(text, tree);
    assert(tree->Object_0.dom() =~= set!["op"@, "req_id"@, "args"@]);
}

/// Whoever reads an order request finds the operation and the arguments that were asked for, how
/// long the request stays valid, the time that it was made at and an identifier of letters and
/// digits, and nothing else. The arguments nest no deeper than can be read inside the request.
/// Where they hold whole numbers only they are read as they were; otherwise each fraction in them
/// is read as a fraction, and all else as it was.
pub proof fn law_trade_is_read_back(
    text: Seq<char>,
    orders: RequestType,
    recv_window: Option<u64>,
)
    requires
        places_orders(text, orders, recv_window),
        nests(value_tree(orders.orders()), (reading_depth() - 1) as nat),
    ensures
        json_parse(text) matches Some(JsonTree::Object(fields)) && {
            &&& fields.dom() == set!["op"@, "reqId"@, "header"@, "args"@]
            &&& fields["op"@] == JsonTree::Str(orders.op())
            &&& reads_as(
                value_tree(orders.orders()),
                fields["args"@],
                (reading_depth() - 1) as nat,
            )
            &&& reads_back(value_tree(orders.orders()), (reading_depth() - 1) as nat)
                ==> fields["args"@] == value_tree(orders.orders())
            &&& exists|time: std::time::SystemTime|
                read_from_clock(time) && fields["header"@] == header_tree(
                    #[trigger] timestamp(time),
                    recv_window,
                )
            &&& fields["reqId"@] matches JsonTree::Str(id) && is_uid(id, ORDER_ID_LENGTH as nat)
        },
{
    lemma_names_differ();
    let time = choose|time: std::time::SystemTime|
        read_from_clock(time) && places_orders_at(
            text,
            #[trigger] timestamp(time),
            orders,
            recv_window,
        );
    let id = choose|id: Seq<char>|
        is_uid(id, ORDER_ID_LENGTH as nat) && carries(
            text,
            #[trigger] trade_tree(id, timestamp(time), orders, recv_window),
        );
    lemma_trade_is_read_back(text, id, timestamp(time), orders, recv_window);
}

/// A text of an order request reads as one, with all its parts.
proof fn lemma_trade_is_read_back(
    text: Seq<char>,
    id: Seq<char>,
    millis: u64,
    orders: RequestType,
    recv_window: Option<u64>,
)
    requires
        carries(text, trade_tree(id, millis, orders, recv_window)),
        nests(value_tree(orders.orders()), (reading_depth() - 1) as nat),
    ensures
        json_parse(text) matches Some(JsonTree::Object(fields)) && {
            &&& fields.dom() == set!["op"@, "reqId"@, "header"@, "args"@]
            &&& fields["op"@] == JsonTree::Str(orders.op())
            &&& reads_as(
                value_tree(orders.orders()),
                fields["args"@],
                (reading_depth() - 1) as nat,
            )
            &&& reads_back(value_tree(orders.orders()), (reading_depth() - 1) as nat)
                ==> fields["args"@] == value_tree(orders.orders())
            &&& fields["header"@] == header_tree(millis, recv_window)
            &&& fields["reqId"@] == JsonTree::Str(id)
        },
{
    lemma_names_differ();
    let tree = trade_tree(id, millis, orders, recv_window);
    let header = header_tree(millis, recv_window);
    let args = value_tree(orders.orders());
    let depth = (reading_depth() - 1) as nat;
    assert(reads_back(header, depth)) by {
        reveal_with_fuel(reads_back, 2);
    }
    lemma_reads_as_itself(header, depth);
    assert(nests(tree, reading_depth())) by {
        reveal_with_fuel(nests, 2);
    }
    let fields = json_parse(text)->Some_0->Object_0;
    assert(tree->Object_0.dom() =~= set!["op"@, "reqId"@, "header"@, "args"@]);
    assert(reads_as(tree->Object_0["op"@], fields["op"@], depth));
    assert(reads_as(tree->Object_0["reqId"@], fields["reqId"@], depth));
    assert(reads_as(tree->Object_0["header"@], fields["header"@], depth));
    assert(reads_as(tree->Object_0["args"@], fields["args"@], depth));
    law_whole_numbers_are_read_back(header, fields["header"@], depth);
    if reads_back(args, depth) {
        law_whole_numbers_are_read_back(args, fields["args"@], depth);
    }
}

/// How two order requests compare, as they are read: the operations are the same just where the
/// requests are of the same kind, the times that they stay valid are the same just where the same
/// was asked for (nothing is as good as the default), and the arguments are the same wherever the
/// same were asked for, fractions and all. None of the three has an influence on the others.
pub proof fn law_trades_compare(
    text1: Seq<char>,
    orders1: RequestType,
    recv_window1: Option<u64>,
    text2: Seq<char>,
    orders2: RequestType,
    recv_window2: Option<u64>,
)
    requires
        places_orders(text1, orders1, recv_window1),
        places_orders(text2, orders2, recv_window2),
        nests(value_tree(orders1.orders()), (reading_depth() - 1) as nat),
        nests(value_tree(orders2.orders()), (reading_depth() - 1) as nat),
    ensures
        json_parse(text1) matches Some(JsonTree::Object(one)) && (json_parse(text2) matches Some(
            JsonTree::Object(other),
        ) && {
            &&& one["op"@] == other["op"@] <==> same_kind(orders1, orders2)
            &&& value_tree(orders1.orders()) == value_tree(orders2.orders()) ==> one["args"@]
                == other["args"@]
            &&& one["header"@] is Object && other["header"@] is Object
            &&& one["header"@]->Object_0["X-BAPI-RECV-WINDOW"@]
                == other["header"@]->Object_0["X-BAPI-RECV-WINDOW"@] <==> window(recv_window1)
                == window(recv_window2)
        }),
{
    lemma_names_differ();
    law_trade_is_read_back(text1, orders1, recv_window1);
    law_trade_is_read_back(text2, orders2, recv_window2);
    law_operations_differ(orders1, orders2);
    law_decimals_differ(window(recv_window1) as nat, window(recv_window2) as nat);
    let one = json_parse(text1)->Some_0->Object_0;
    let other = json_parse(text2)->Some_0->Object_0;
    if value_tree(orders1.orders()) == value_tree(orders2.orders()) {
        law_reading_is_fixed(
            value_tree(orders1.orders()),
            one["args"@],
            other["args"@],
            (reading_depth() - 1) as nat,
        );
    }
}

/// Requests of different kinds ask for different operations.
pub proof fn law_operations_differ(one: RequestType, other: RequestType)
    ensures
        one.op() == other.op() <==> same_kind(one, other),
{
    reveal_strlit("order.create");
    reveal_strlit("order.create-batch");
    reveal_strlit("order.amend");
    reveal_strlit("order.amend-batch");
    reveal_strlit("order.cancel");
    reveal_strlit("order.cancel-batch");
    assert("order.create"@.len() == 12);
    assert("order.create-batch"@.len() == 18);
    assert("order.amend"@.len() == 11);
    assert("order.amend-batch"@.len() == 17);
    assert("order.cancel"@.len() == 12);
    assert("order.cancel-batch"@.len() == 18);
    assert("order.create"@[7] != "order.cancel"@[7]);
    assert("order.create-batch"@[7] != "order.cancel-batch"@[7]);
}

/// `text` reads as an order request with these parts and no others: the identifier `req_id`, the
/// operation `op`, the arguments `args`, and a header that names, in decimal, `millis` as the time
/// of the request and `window` as the milliseconds that it stays valid for. Arguments that nest
/// deeper than can be read inside a request are left out.
pub open spec fn reads_as_trade(
    text: Seq<char>,
    req_id: Seq<char>,
    op: Seq<char>,
    args: JsonTree,
    millis: u64,
    window: u64,
) -> bool {
    nests(args, 126) ==> (json_parse(text) matches Some(JsonTree::Object(fields)) && {
        &&& fields.dom() == set!["reqId"@, "op"@, "args"@, "header"@]
        &&& fields["reqId"@] == JsonTree::Str(req_id)
        &&& fields["op"@] == JsonTree::Str(op)
        &&& reads_as(args, fields["args"@], 126)
        &&& reads_back(args, 126) ==> fields["args"@] == args
        &&& fields["header"@] matches JsonTree::Object(header) && {
            &&& header.dom() == set!["X-BAPI-TIMESTAMP"@, "X-BAPI-RECV-WINDOW"@]
            &&& header["X-BAPI-TIMESTAMP"@] matches JsonTree::Str(text) && names_number(
                text,
                millis as int,
            )
            &&& header["X-BAPI-RECV-WINDOW"@] matches JsonTree::Str(text) && names_number(
                text,
                window as int,
            )
        }
    })
}

/// `text` reads as the order request `orders`: its operation is that of its kind, and its arguments
/// are those that it holds. Where no time is asked for it stays valid for five seconds.
pub open spec fn reads_as_orders(
    text: Seq<char>,
    req_id: Seq<char>,
    millis: u64,
    orders: RequestType,
    recv_window: Option<u64>,
) -> bool {
    let window: u64 = match recv_window {
        Some(asked_for) => asked_for,
        None => 5000,
    };
    match orders {
        RequestType::Create(args) => reads_as_trade(
            text,
            req_id,
            "order.create"@,
            value_tree(args),
            millis,
            window,
        ),
        RequestType::CreateBatch(args) => reads_as_trade(
            text,
            req_id,
            "order.create-batch"@,
            value_tree(args),
            millis,
            window,
        ),
        RequestType::Amend(args) => reads_as_trade(
            text,
            req_id,
            "order.amend"@,
            value_tree(args),
            millis,
            window,
        ),
        RequestType::AmendBatch(args) => reads_as_trade(
            text,
            req_id,
            "order.amend-batch"@,
            value_tree(args),
            millis,
            window,
        ),
        RequestType::Cancel(args) => reads_as_trade(
            text,
            req_id,
            "order.cancel"@,
            value_tree(args),
            millis,
            window,
        ),
        RequestType::CancelBatch(args) => reads_as_trade(
            text,
            req_id,
            "order.cancel-batch"@,
            value_tree(args),
            millis,
            window,
        ),
    }
}

/// A text of an order request reads as that request.
pub(crate) proof fn lemma_reads_as_orders(
    text: Seq<char>,
    req_id: Seq<char>,
    millis: u64,
    orders: RequestType,
    recv_window: Option<u64>,
)
    requires
        carries(text, trade_tree(req_id, millis, orders, recv_window)),
    ensures
        reads_as_orders(text, req_id, millis, orders, recv_window),
{
    lemma_names_differ();
    if nests(value_tree(orders.orders()), (reading_depth() - 1) as nat) {
        lemma_trade_is_read_back(text, req_id, millis, orders, recv_window);
        law_decimal_is_read_back(millis as nat);
        law_decimal_is_read_back(window(recv_window) as nat);
        let fields = json_parse(text)->Some_0->Object_0;
        assert(fields["header"@]->Object_0.dom() =~= set![
            "X-BAPI-TIMESTAMP"@,
            "X-BAPI-RECV-WINDOW"@,
        ]);
        assert(fields.dom() =~= set!["reqId"@, "op"@, "args"@, "header"@]);
    }
}

/// Whoever reads the text of an order request finds the identifier and the time that it was made
/// with, the operation of its kind, its own arguments and how long it stays valid, and nothing else.
pub proof fn law_trade_text_says_what_was_asked_for(
    req_id: String,
    millis: u64,
    orders: RequestType,
    recv_window: Option<u64>,
    text: String,
)
    requires
        call_ensures(trade_text, (req_id, millis, orders, recv_window), text),
    ensures
        reads_as_orders(text@, req_id@, millis, orders, recv_window),
{
    lemma_reads_as_orders(text@, req_id@, millis, orders, recv_window);
}

/// Whoever reads the text of a subscription finds its identifier, its operation and its topics, each
/// at its place, and nothing else.
pub proof fn law_subscription_text_says_what_was_asked_for(
    req_id: String,
    action: Subscription,
    text: String,
)
    requires
        call_ensures(subscription_text, (req_id, action), text),
    ensures
        json_parse(text@) matches Some(JsonTree::Object(fields)) && {
            &&& fields.dom() == set!["op"@, "req_id"@, "args"@]
            &&& fields["req_id"@] == JsonTree::Str(req_id@)
            &&& fields["op"@] == JsonTree::Str(action.op@)
            &&& fields["args"@] matches JsonTree::Array(topics) && {
                &&& topics.len() == action.args@.len()
                &&& forall|i: int|
                    0 <= i < topics.len() ==> #[trigger] topics[i] == JsonTree::Str(
                        action.args@[i]@,
                    )
            }
        },
{
    lemma_names_differ();
    let tree = subscription_tree(req_id@, action.op@, texts(action.args@));
    reveal_with_fuel(reads_back, 3);
    lemma_carried_whole(text@, tree);
    assert(tree->Object_0.dom() =~= set!["op"@, "req_id"@, "args"@]);
}

/// Whoever reads the text of a ping finds the operation `ping`, and the identifier where one was
/// given, and nothing else.
pub proof fn law_ping_text_says_what_was_asked_for(req_id: Option<String>, text: String)
    requires
        call_ensures(ping_text, (req_id,), text),
    ensures
        json_parse(text@) matches Some(JsonTree::Object(fields)) && {
            &&& fields["op"@] == JsonTree::Str("ping"@)
            &&& match req_id {
                Some(id) => fields.dom() == set!["op"@, "req_id"@] && fields["req_id"@]
                    == JsonTree::Str(id@),
                None => fields.dom() == set!["op"@],
            }
        },
{
    lemma_names_differ();
    let id = match req_id {
        Some(id) => Some(id@),
        None => None,
    };
    reveal_with_fuel(reads_back, 2);
    lemma_carried_whole(text@, ping_tree(id));
    assert(ping_tree(id)->Object_0.dom() =~= if req_id is Some {
        set!["op"@, "req_id"@]
    } else {
        set!["op"@]
    });
}

/// The arguments that are sent are those that the request holds, whatever its kind.
pub proof fn law_orders_are_sent_as_they_are(
    orders: RequestType,
    args: serde_json::Value,
    held: serde_json::Value,
)
    requires
        call_ensures(build_ws_orders, (orders,), args),
        orders == RequestType::Create(held) || orders == RequestType::CreateBatch(held) || orders
            == RequestType::Amend(held) || orders == RequestType::AmendBatch(held) || orders
            == RequestType::Cancel(held) || orders == RequestType::CancelBatch(held),
    ensures
        args == held,
{
}

} // verus!
