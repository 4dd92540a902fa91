//! The loop that serves a connection: what it does next, given what came of what it did last.
use vstd::prelude::*;
use crate::ambient::{counts_millis, is_uid, read_from_clock};
use crate::error::{BybitError, ErrorView};
use crate::json::{json_parse, JsonTree};
use crate::request::{
    carries, law_bare_ping_is_read_back, law_ping_is_read_back, ping_request, ping_text, ping_tree,
    pings, places_orders, reads_as_orders, RequestType,
};
use crate::stream::{lemma_placed_orders, Stream};

verus! {

/// After how many nanoseconds without a ping the next one is due: five minutes.
pub const PING_INTERVAL: u128 = 300_000_000_000;

/// For how many milliseconds an order request that the loop sends stays valid.
pub const ORDER_RECV_WINDOW: u64 = 3000;

/// A message on a connection.
pub enum Frame {
    Text(String),
    Other,
}

/// What came of the last action.
pub enum LoopEvent {
    /// A message arrived, receiving it failed, or the connection was closed.
    Received(Option<Result<Frame, String>>),
    /// The message was handled, or handling it failed.
    Handled(Result<(), BybitError>),
    /// There was an order to send, or there will be none.
    Order(Option<RequestType>),
    /// The order was sent, or sending it failed.
    Sent(Result<(), String>),
    /// The nanoseconds since the loop began.
    Clock(u128),
    /// The ping was sent, or was not; the nanoseconds since the loop began.
    Pinged(u128),
}

/// What to do next.
pub enum Action {
    /// Wait for a message.
    Receive,
    /// Handle the text of a message.
    Handle(String),
    /// Wait for an order to send.
    TakeOrder,
    /// Send an order request.
    SendOrder(RequestType),
    /// Read the clock.
    ReadClock,
    /// Send a ping, and read the clock, whether or not it could be sent.
    SendPing,
    /// End with an error.
    Stop(BybitError),
}

/// What an action asks for.
pub ghost enum ActionView {
    Receive,
    Handle(Seq<char>),
    TakeOrder,
    SendOrder(RequestType),
    ReadClock,
    SendPing,
    Stop(ErrorView),
}

impl View for Action {
    type V = ActionView;

    open spec fn view(&self) -> ActionView {
        match self {
            Action::Receive => ActionView::Receive,
            Action::Handle(text) => ActionView::Handle(text@),
            Action::TakeOrder => ActionView::TakeOrder,
            Action::SendOrder(order) => ActionView::SendOrder(*order),
            Action::ReadClock => ActionView::ReadClock,
            Action::SendPing => ActionView::SendPing,
            Action::Stop(error) => ActionView::Stop(error@),
        }
    }
}

/// The state of the loop.
#[derive(Clone, Copy, Debug, PartialEq, Eq, Structural)]
pub struct EventLoop {
    /// Orders are taken and sent.
    pub trading: bool,
    /// When the last ping was sent, or the loop began: nanoseconds since the loop began.
    pub last_ping: u128,
}

/// `event` can come of `action`.
pub open spec fn answers(action: ActionView, event: LoopEvent) -> bool {
    match action {
        ActionView::Receive => event is Received,
        ActionView::Handle(_) => event is Handled,
        ActionView::TakeOrder => event is Order,
        ActionView::SendOrder(_) => event is Sent,
        ActionView::ReadClock => event is Clock,
        ActionView::SendPing => event is Pinged,
        ActionView::Stop(_) => false,
    }
}

impl EventLoop {
    /// A loop that has just begun.
    pub open spec fn begun(trading: bool) -> EventLoop {
        EventLoop { trading, last_ping: 0 }
    }

    /// What follows a message that needs no more work: an order, where orders are taken, and
    /// otherwise a look at the clock.
    pub open spec fn after_message(self) -> ActionView {
        if self.trading {
            ActionView::TakeOrder
        } else {
            ActionView::ReadClock
        }
    }

    /// More than the ping interval has passed at `now` since the last ping.
    pub open spec fn ping_due(self, now: u128) -> bool {
        now - self.last_ping > PING_INTERVAL
    }

    /// What to do after `event`.
    pub open spec fn next_action(self, event: LoopEvent) -> ActionView {
        match event {
            LoopEvent::Received(Some(Ok(Frame::Text(text)))) => ActionView::Handle(text@),
            LoopEvent::Received(Some(Ok(Frame::Other))) => self.after_message(),
            LoopEvent::Received(Some(Err(text))) => ActionView::Stop(ErrorView::Base(text@)),
            LoopEvent::Received(None) => ActionView::Stop(ErrorView::Base("Stream was closed"@)),
            LoopEvent::Handled(Ok(())) => self.after_message(),
            LoopEvent::Handled(Err(_)) => ActionView::Stop(
                ErrorView::Base("Error handling stream message"@),
            ),
            LoopEvent::Order(Some(order)) => ActionView::SendOrder(order),
            LoopEvent::Order(None) => ActionView::ReadClock,
            LoopEvent::Sent(Ok(())) => ActionView::ReadClock,
            LoopEvent::Sent(Err(text)) => ActionView::Stop(ErrorView::Tungstenite(text@)),
            LoopEvent::Clock(now) => if self.ping_due(now) {
                ActionView::SendPing
            } else {
                ActionView::Receive
            },
            LoopEvent::Pinged(_) => ActionView::Receive,
        }
    }

    /// The state after `event`.
    pub open spec fn next_state(self, event: LoopEvent) -> EventLoop {
        match event {
            LoopEvent::Pinged(now) => EventLoop { last_ping: now, ..self },
            _ => self,
        }
    }

    /// The state after the first `n` of `events`.
    pub open spec fn state_after(self, events: Seq<LoopEvent>, n: int) -> EventLoop
        decreases n,
    {
        if n <= 0 {
            self
        } else {
            self.state_after(events, n - 1).next_state(events[n - 1])
        }
    }

    /// What is done after the event at `i` of `events`.
    pub open spec fn action_after(self, events: Seq<LoopEvent>, i: int) -> ActionView {
        self.state_after(events, i).next_action(events[i])
    }

    /// What is done before the event at `i` of `events`: at first, waiting for a message.
    pub open spec fn action_before(self, events: Seq<LoopEvent>, i: int) -> ActionView {
        if i <= 0 {
            ActionView::Receive
        } else {
            self.action_after(events, i - 1)
        }
    }

    /// Each of `events` came of the action before it, the first of waiting for a message.
    pub open spec fn runs(self, events: Seq<LoopEvent>) -> bool {
        forall|i: int|
            0 <= i < events.len() ==> answers(self.action_before(events, i), #[trigger] events[i])
    }

    /// The texts that are handled after the first `n` of `events`, in their order.
    pub open spec fn texts_handled(self, events: Seq<LoopEvent>, n: int) -> Seq<Seq<char>>
        decreases n,
    {
        if n <= 0 {
            seq![]
        } else {
            self.texts_handled(events, n - 1) + match self.action_after(events, n - 1) {
                ActionView::Handle(text) => seq![text],
                _ => seq![],
            }
        }
    }

    /// The orders that were written to the connection by the first `n` of `events`, in their
    /// order.
    pub open spec fn orders_written(self, events: Seq<LoopEvent>, n: int) -> Seq<RequestType>
        decreases n,
    {
        if n <= 0 {
            seq![]
        } else {
            self.orders_written(events, n - 1) + match (
                self.action_before(events, n - 1),
                events[n - 1],
            ) {
                (ActionView::SendOrder(order), LoopEvent::Sent(Ok(()))) => seq![order],
                _ => seq![],
            }
        }
    }

    fn leave_message(&self) -> (next: Action)
        ensures
            next@ == self.after_message(),
    {
        if self.trading {
            Action::TakeOrder
        } else {
            Action::ReadClock
        }
    }

    /// Takes in what came of the last action, and says what to do next.
    pub fn step(&mut self, event: LoopEvent) -> (next: Action)
        ensures
            *final(self) == old(self).next_state(event),
            next@ == old(self).next_action(event),
    {
        match event {
            LoopEvent::Received(Some(Ok(Frame::Text(text)))) => Action::Handle(text),
            LoopEvent::Received(Some(Ok(Frame::Other))) => self.leave_message(),
            LoopEvent::Received(Some(Err(text))) => Action::Stop(BybitError::from(text)),
            LoopEvent::Received(None) => Action::Stop(BybitError::base("Stream was closed")),
            LoopEvent::Handled(Ok(())) => self.leave_message(),
            LoopEvent::Handled(Err(_)) => Action::Stop(
                BybitError::base("Error handling stream message"),
            ),
            LoopEvent::Order(Some(order)) => Action::SendOrder(order),
            LoopEvent::Order(None) => Action::ReadClock,
            LoopEvent::Sent(Ok(())) => Action::ReadClock,
            LoopEvent::Sent(Err(text)) => Action::Stop(BybitError::Tungstenite(text)),
            LoopEvent::Clock(now) => {
                if now > self.last_ping && now - self.last_ping > PING_INTERVAL {
                    Action::SendPing
                } else {
                    Action::Receive
                }
            },
            LoopEvent::Pinged(now) => {
                self.last_ping = now;
                Action::Receive
            },
        }
    }

    /// The text of an order request that the loop sends.
    pub fn order_message(order: RequestType) -> (text: String)
        ensures
            places_orders(text@, order, Some(ORDER_RECV_WINDOW)),
    {
        Stream::build_trade_subscription(order, Some(ORDER_RECV_WINDOW))
    }

    /// The text of a ping that the loop sends. Where orders are taken it carries no identifier.
    pub fn ping_message(&self) -> (text: String)
        ensures
            if self.trading {
                carries(text@, ping_tree(None))
            } else {
                pings(text@)
            },
    {
        if self.trading {
            ping_text(None)
        } else {
            ping_request()
        }
    }
}

/// The texts of the messages among the first `n` of `events`, in their order.
pub open spec fn texts_received(events: Seq<LoopEvent>, n: int) -> Seq<Seq<char>>
    decreases n,
{
    if n <= 0 {
        seq![]
    } else {
        texts_received(events, n - 1) + match events[n - 1] {
            LoopEvent::Received(Some(Ok(Frame::Text(text)))) => seq![text@],
            _ => seq![],
        }
    }
}

/// The orders that were taken by the first `n` of `events`, in their order.
pub open spec fn orders_taken(events: Seq<LoopEvent>, n: int) -> Seq<RequestType>
    decreases n,
{
    if n <= 0 {
        seq![]
    } else {
        orders_taken(events, n - 1) + match events[n - 1] {
            LoopEvent::Order(Some(order)) => seq![order],
            _ => seq![],
        }
    }
}

/// How many of the first `n` of `events` finish a message: it was handled, or needed no handling.
pub open spec fn messages_finished(events: Seq<LoopEvent>, n: int) -> nat
    decreases n,
{
    if n <= 0 {
        0
    } else {
        messages_finished(events, n - 1) + match events[n - 1] {
            LoopEvent::Received(Some(Ok(Frame::Other))) | LoopEvent::Handled(Ok(())) => 1nat,
            _ => 0nat,
        }
    }
}

/// How many times the first `n` of `events` tell of an order, or that there will be none.
pub open spec fn orders_waited_for(events: Seq<LoopEvent>, n: int) -> nat
    decreases n,
{
    if n <= 0 {
        0
    } else {
        orders_waited_for(events, n - 1) + if events[n - 1] is Order {
            1nat
        } else {
            0nat
        }
    }
}

/// The loop never ends well: it ends when the connection is closed or fails, when a message cannot
/// be handled or an order cannot be sent, always with an error, and nothing comes after that.
pub proof fn law_loop_ends_in_an_error(state: EventLoop, event: LoopEvent)
    ensures
        state.next_action(event) is Stop <==> match event {
            LoopEvent::Received(None) => true,
            LoopEvent::Received(Some(Err(_))) => true,
            LoopEvent::Handled(Err(_)) => true,
            LoopEvent::Sent(Err(_)) => true,
            _ => false,
        },
        state.next_action(event) is Stop ==> forall|later: LoopEvent|
            !answers(state.next_action(event), later),
{
}

/// Whether orders are taken does not change while the loop runs, and the state stays as it is where
/// no ping is sent.
proof fn lemma_state_after(state: EventLoop, events: Seq<LoopEvent>, i: int, j: int)
    requires
        0 <= i <= j <= events.len(),
    ensures
        state.state_after(events, j).trading == state.trading,
        (forall|k: int| i <= k < j ==> !(#[trigger] events[k] is Pinged)) ==> state.state_after(
            events,
            j,
        ) == state.state_after(events, i),
    decreases j,
{
    if i < j {
        lemma_state_after(state, events, i, j - 1);
    } else if j > 0 {
        lemma_state_after(state, events, j - 1, j - 1);
    }
}

/// A loop that takes no orders never asks for one and never sends one.
pub proof fn law_orders_need_trading(state: EventLoop, events: Seq<LoopEvent>, i: int)
    requires
        state.runs(events),
        0 <= i < events.len(),
        !state.trading,
    ensures
        !(state.action_after(events, i) is TakeOrder),
        !(state.action_after(events, i) is SendOrder),
{
    lemma_state_after(state, events, i, i);
    assert(answers(state.action_before(events, i), events[i]));
    if i > 0 {
        lemma_state_after(state, events, i - 1, i - 1);
    }
}

/// Pings are more than the ping interval apart: a ping that is due at `j` is due by a reading of the
/// clock that lies more than the interval after the reading that followed the ping before it.
pub proof fn law_pings_are_apart(state: EventLoop, events: Seq<LoopEvent>, i: int, j: int)
    requires
        state.runs(events),
        0 <= i < j < events.len(),
        state.action_after(events, i) is SendPing,
        state.action_after(events, j) is SendPing,
        forall|k: int| i < k < j ==> !(#[trigger] state.action_after(events, k) is SendPing),
    ensures
        events[i + 1] matches LoopEvent::Pinged(sent) && (events[j] matches LoopEvent::Clock(now)
            && now - sent > PING_INTERVAL),
{
    assert(answers(state.action_before(events, i + 1), events[i + 1]));
    assert forall|k: int| i + 2 <= k < j implies !(#[trigger] events[k] is Pinged) by {
        assert(answers(state.action_before(events, k), events[k]));
        assert(!(state.action_after(events, k - 1) is SendPing));
    }
    assert(j != i + 1);
    lemma_state_after(state, events, i + 2, j);
}

/// No ping is sent before the ping interval has passed since the loop began.
pub proof fn law_first_ping_waits(trading: bool, events: Seq<LoopEvent>, i: int)
    requires
        EventLoop::begun(trading).runs(events),
        0 <= i < events.len(),
        EventLoop::begun(trading).action_after(events, i) is SendPing,
        forall|k: int|
            0 <= k < i ==> !(#[trigger] EventLoop::begun(trading).action_after(events, k) is SendPing),
    ensures
        events[i] matches LoopEvent::Clock(now) && now > PING_INTERVAL,
{
    let state = EventLoop::begun(trading);
    assert forall|k: int| 0 <= k < i implies !(#[trigger] events[k] is Pinged) by {
        if k > 0 {
            assert(!(state.action_after(events, k - 1) is SendPing));
        }
    }
    lemma_state_after(state, events, 0, i);
}

/// Every text that arrives is handled, once and in its turn, and nothing else is: at each moment of
/// a run the texts handled are the texts received.
pub proof fn law_texts_are_handled_in_order(state: EventLoop, events: Seq<LoopEvent>, n: int)
    requires
        state.runs(events),
        0 <= n <= events.len(),
    ensures
        state.texts_handled(events, n) == texts_received(events, n),
    decreases n,
{
    if n > 0 {
        law_texts_are_handled_in_order(state, events, n - 1);
    }
}

/// The orders that are written to the connection are the first ones taken, in their order: all of
/// them, save for one that is about to be sent or that could not be.
pub proof fn law_orders_are_written_in_order(state: EventLoop, events: Seq<LoopEvent>, n: int)
    requires
        state.runs(events),
        0 <= n <= events.len(),
    ensures
        ({
            let taken = orders_taken(events, n);
            let unsent = state.action_before(events, n) is SendOrder || (n > 0 && (events[n - 1]
                matches LoopEvent::Sent(Err(_))));
            &&& unsent ==> taken.len() > 0 && state.orders_written(events, n) == taken.drop_last()
            &&& !unsent ==> state.orders_written(events, n) == taken
            &&& state.action_before(events, n) matches ActionView::SendOrder(order) ==> order
                == taken.last()
        }),
    decreases n,
{
    if n > 0 {
        law_orders_are_written_in_order(state, events, n - 1);
        assert(answers(state.action_before(events, n - 1), events[n - 1]));
        let before = orders_taken(events, n - 1);
        let taken = orders_taken(events, n);
        match events[n - 1] {
            LoopEvent::Order(Some(order)) => {
                assert(taken =~= before.push(order));
                assert(taken.drop_last() =~= before);
            },
            LoopEvent::Sent(Ok(())) => {
                assert(before.drop_last().push(before.last()) =~= before);
            },
            _ => {},
        }
    }
}

/// A loop that takes orders waits for one after every message that it finishes, and at no other
/// time: it has waited as often as it has finished a message, save for a wait that has begun.
pub proof fn law_one_order_per_message(state: EventLoop, events: Seq<LoopEvent>, n: int)
    requires
        state.runs(events),
        state.trading,
        0 <= n <= events.len(),
    ensures
        messages_finished(events, n) == orders_waited_for(events, n) + if state.action_before(
            events,
            n,
        ) is TakeOrder {
            1int
        } else {
            0int
        },
        orders_taken(events, n).len() <= orders_waited_for(events, n),
    decreases n,
{
    if n > 0 {
        law_one_order_per_message(state, events, n - 1);
        assert(answers(state.action_before(events, n - 1), events[n - 1]));
        lemma_state_after(state, events, n - 1, n - 1);
    }
}

/// A ping is sent as soon as it is due, whether or not orders are taken: a reading of the clock that
/// lies more than five minutes after the last ping is followed by one, and any other is not.
pub proof fn law_due_ping_is_sent(state: &mut EventLoop, now: u128, next: Action)
    requires
        call_ensures(EventLoop::step, (state, LoopEvent::Clock(now)), next),
    ensures
        now - old(state).last_ping > 300_000_000_000 ==> next is SendPing,
        now - old(state).last_ping <= 300_000_000_000 ==> next is Receive,
{
}

/// A ping, sent or not, starts the five minutes anew at the reading of the clock that follows it.
/// Nothing else does, and nothing changes whether orders are taken.
pub proof fn law_only_pings_restart_the_interval(
    state: &mut EventLoop,
    event: LoopEvent,
    next: Action,
)
    requires
        call_ensures(EventLoop::step, (state, event), next),
    ensures
        event matches LoopEvent::Pinged(now) ==> final(state).last_ping == now,
        event !is Pinged ==> final(state).last_ping == old(state).last_ping,
        final(state).trading == old(state).trading,
{
}

/// Over a run a due ping is always sent: a reading of the clock is followed by a ping just where it
/// lies more than five minutes after the reading that followed the last ping, or after the beginning
/// where no ping was sent yet.
pub proof fn law_due_pings_are_sent_over_a_run(
    trading: bool,
    events: Seq<LoopEvent>,
    last: int,
    i: int,
    now: u128,
)
    requires
        EventLoop::begun(trading).runs(events),
        -1 <= last < i < events.len(),
        last >= 0 ==> events[last] is Pinged,
        forall|k: int| last < k < i ==> !(#[trigger] events[k] is Pinged),
        events[i] == LoopEvent::Clock(now),
    ensures
        ({
            let since: int = if last >= 0 {
                events[last]->Pinged_0 as int
            } else {
                0
            };
            let next = EventLoop::begun(trading).action_after(events, i);
            &&& now - since > 300_000_000_000 ==> next is SendPing
            &&& now - since <= 300_000_000_000 ==> next is Receive
        }),
{
    lemma_state_after(EventLoop::begun(trading), events, last + 1, i);
}

/// Between two messages that arrive, the clock is read, so that a ping that is due is not forgotten
/// however many messages come.
pub proof fn law_clock_is_read_between_messages(
    state: EventLoop,
    events: Seq<LoopEvent>,
    i: int,
    j: int,
)
    requires
        state.runs(events),
        0 <= i < j < events.len(),
        events[i] is Received,
        events[j] is Received,
    ensures
        exists|k: int| i < k < j && #[trigger] events[k] is Clock,
{
    assert(answers(state.action_before(events, j), events[j]));
    assert(answers(state.action_before(events, j - 1), events[j - 1]));
    if events[j - 1] is Pinged {
        assert(answers(state.action_before(events, j - 2), events[j - 2]));
        assert(events[j - 2] is Clock);
    } else {
        assert(events[j - 1] is Clock);
    }
}

/// A text that arrives is what is handled next. A message that needs no handling, or was handled, is
/// followed by a wait for an order where orders are taken, and otherwise by a look at the clock.
pub proof fn law_messages_are_followed_up(state: &mut EventLoop, event: LoopEvent, next: Action)
    requires
        call_ensures(EventLoop::step, (state, event), next),
    ensures
        event matches LoopEvent::Received(Some(Ok(Frame::Text(text)))) ==> (next matches Action::Handle(
            handled,
        ) && handled@ == text@),
        event == LoopEvent::Received(Some(Ok(Frame::Other))) || event == LoopEvent::Handled(
            Ok(()),
        ) ==> if old(state).trading {
            next is TakeOrder
        } else {
            next is ReadClock
        },
{
}

/// An order that is taken is what is sent next, as it is. Once it is sent, or where there is none, the
/// clock is looked at; after a ping the next message is waited for.
pub proof fn law_orders_are_followed_up(state: &mut EventLoop, event: LoopEvent, next: Action)
    requires
        call_ensures(EventLoop::step, (state, event), next),
    ensures
        event matches LoopEvent::Order(Some(order)) ==> (next matches Action::SendOrder(sent) && sent
            == order),
        event == LoopEvent::Order(None) || event == LoopEvent::Sent(Ok(())) ==> next is ReadClock,
        event is Pinged ==> next is Receive,
{
}

/// The loop ends with an error that tells why: in the words of the failure to receive or to send, or
/// that the stream was closed or a message could not be handled.
pub proof fn law_loop_tells_why_it_ends(state: &mut EventLoop, event: LoopEvent, next: Action)
    requires
        call_ensures(EventLoop::step, (state, event), next),
    ensures
        event matches LoopEvent::Received(Some(Err(text))) ==> (next matches Action::Stop(
            BybitError::Base(words),
        ) && words@ == text@),
        event matches LoopEvent::Received(None) ==> (next matches Action::Stop(
            BybitError::Base(words),
        ) && words@ == "Stream was closed"@),
        event matches LoopEvent::Handled(Err(_)) ==> (next matches Action::Stop(
            BybitError::Base(words),
        ) && words@ == "Error handling stream message"@),
        event matches LoopEvent::Sent(Err(text)) ==> (next matches Action::Stop(
            BybitError::Tungstenite(words),
        ) && words@ == text@),
{
}

/// What an action is seen as is what it is: its kind, and the text, the order or the error in it.
pub proof fn law_actions_are_what_they_seem(action: Action)
    ensures
        action is Receive <==> action@ is Receive,
        action is TakeOrder <==> action@ is TakeOrder,
        action is ReadClock <==> action@ is ReadClock,
        action is SendPing <==> action@ is SendPing,
        action is Handle <==> action@ is Handle,
        action is SendOrder <==> action@ is SendOrder,
        action is Stop <==> action@ is Stop,
        action matches Action::Handle(text) ==> action@ == ActionView::Handle(text@),
        action matches Action::SendOrder(order) ==> action@ == ActionView::SendOrder(order),
        action matches Action::Stop(error) ==> action@ == ActionView::Stop(error@),
{
}

/// Whoever reads an order request of the loop finds the order that was taken, a reading of the clock
/// as its time, and that it stays valid for three seconds.
pub proof fn law_loop_sends_the_order(order: RequestType, text: String)
    requires
        call_ensures(EventLoop::order_message, (order,), text),
    ensures
        exists|id: Seq<char>, time: std::time::SystemTime, millis: u64|
            {
                &&& is_uid(id, 16)
                &&& read_from_clock(time)
                &&& #[trigger] counts_millis(time, millis)
                &&& #[trigger] reads_as_orders(text@, id, millis, order, Some(3000))
            },
{
    lemma_placed_orders(order, Some(ORDER_RECV_WINDOW), text@);
}

/// Whoever reads a ping of the loop finds the operation `ping`, with an identifier of eight letters
/// and digits where no orders are taken and without one where they are, and nothing else.
pub proof fn law_loop_pings(state: EventLoop, text: String)
    requires
        call_ensures(EventLoop::ping_message, (&state,), text),
    ensures
        json_parse(text@) matches Some(JsonTree::Object(fields)) && {
            &&& fields["op"@] == JsonTree::Str("ping"@)
            &&& if state.trading {
                fields.dom() == set!["op"@]
            } else {
                &&& fields.dom() == set!["op"@, "req_id"@]
                &&& fields["req_id"@] matches JsonTree::Str(id) && is_uid(id, 8)
            }
        },
{
    if state.trading {
        law_bare_ping_is_read_back(text@);
    } else {
        law_ping_is_read_back(text@);
    }
}

} // verus!
