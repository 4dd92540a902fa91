//! Linear tickers, kept up to date from their changes.
use vstd::hash_map::StringHashMap;
use vstd::prelude::*;
use crate::events::{
    items, law_every_linear_ticker_is_taken, take_timed_linear_tickers, LinearTickerData,
    LinearTickerDataDelta, LinearTickerDataSnapshot, Ticker, Timed, WebsocketEvents, WsTicker,
};
use crate::json::value_tree;
use crate::outbox::{
    goes_on, law_run_is_delivered_in_order, law_run_stops_at_a_failure, run_delivered, went_well,
};
use crate::table::present_fields;

verus! {

/// The state of a ticker, or the part of it that changed.
pub ghost struct TickerState {
    pub symbol: Seq<char>,
    pub fields: Map<Seq<char>, serde_json::Value>,
}

/// The state of a ticker at a time.
pub ghost struct TimedState {
    pub time: u64,
    pub state: TickerState,
}

/// What arrives of a ticker at a time: its whole state, or the part of it that changed.
pub ghost struct TickerUpdate {
    pub time: u64,
    pub whole: bool,
    pub state: TickerState,
}

/// The state of each ticker, under its symbol.
pub type Latest = Map<Seq<char>, TimedState>;

impl View for LinearTickerDataSnapshot {
    type V = TickerState;

    open spec fn view(&self) -> TickerState {
        TickerState { symbol: self.symbol@, fields: self.fields@ }
    }
}

impl View for LinearTickerDataDelta {
    type V = TickerState;

    open spec fn view(&self) -> TickerState {
        TickerState { symbol: self.symbol@, fields: self.fields@ }
    }
}

/// The state that a timed snapshot stands for.
pub open spec fn timed_state(timed: Timed<LinearTickerDataSnapshot>) -> TimedState {
    TimedState { time: timed.time, state: timed.data@ }
}

/// The update that timed ticker data stand for.
pub open spec fn ticker_update(ticker: Timed<LinearTickerData>) -> TickerUpdate {
    match ticker.data {
        LinearTickerData::Snapshot(snapshot) => TickerUpdate {
            time: ticker.time,
            whole: true,
            state: snapshot@,
        },
        LinearTickerData::Delta(delta) => TickerUpdate {
            time: ticker.time,
            whole: false,
            state: delta@,
        },
    }
}

/// The state `base` with each field of `change` in place of its own.
pub open spec fn changed(base: TickerState, change: TickerState) -> TickerState {
    TickerState {
        symbol: base.symbol,
        fields: base.fields.union_prefer_right(change.fields),
    }
}

/// What `update` makes of the states so far, and the state that is sent on: given to be sent into
/// the channel, that is, whether or not the send then goes well. A whole state
/// replaces what was known. A change is put on top of what was known; of a ticker that is not
/// known it is passed over.
pub open spec fn take_update(latest: Latest, update: TickerUpdate) -> (Latest, Option<TimedState>) {
    let symbol = update.state.symbol;
    if update.whole {
        let new = TimedState { time: update.time, state: update.state };
        (latest.insert(symbol, new), Some(new))
    } else if latest.contains_key(symbol) {
        let new = TimedState {
            time: update.time,
            state: changed(latest[symbol].state, update.state),
        };
        (latest.insert(symbol, new), Some(new))
    } else {
        (latest, None)
    }
}

/// The states after all of `updates`.
pub open spec fn latest_after(latest: Latest, updates: Seq<TickerUpdate>) -> Latest
    decreases updates.len(),
{
    if updates.len() == 0 {
        latest
    } else {
        take_update(latest_after(latest, updates.drop_last()), updates.last()).0
    }
}

/// The states that are given to be sent on while `updates` arrive, in their order.
pub open spec fn states_sent(latest: Latest, updates: Seq<TickerUpdate>) -> Seq<TimedState>
    decreases updates.len(),
{
    if updates.len() == 0 {
        seq![]
    } else {
        let before = updates.drop_last();
        states_sent(latest, before) + items(
            take_update(latest_after(latest, before), updates.last()).1,
        )
    }
}

/// The state that is sent on after each of `updates`, if there is one.
pub open spec fn states_by_update(latest: Latest, updates: Seq<TickerUpdate>) -> Seq<
    Seq<TimedState>,
> {
    Seq::new(
        updates.len(),
        |i: int| items(take_update(latest_after(latest, updates.take(i)), updates[i]).1),
    )
}

/// The state `whole` with each change of the same ticker among `updates` put on top, in their
/// order.
pub open spec fn with_changes(whole: TickerState, updates: Seq<TickerUpdate>) -> TickerState
    decreases updates.len(),
{
    if updates.len() == 0 {
        whole
    } else {
        let before = with_changes(whole, updates.drop_last());
        if updates.last().state.symbol == whole.symbol {
            changed(before, updates.last().state)
        } else {
            before
        }
    }
}

/// The update at `at` is the last one among the first `n` of `updates` that is a whole state of
/// the ticker `symbol`.
pub open spec fn last_whole(updates: Seq<TickerUpdate>, at: int, n: int, symbol: Seq<char>) -> bool {
    &&& 0 <= at < n
    &&& updates[at].whole && updates[at].state.symbol == symbol
    &&& forall|i: int|
        at < i < n && (#[trigger] updates[i]).state.symbol == symbol ==> !updates[i].whole
}

/// Every state stands under its own symbol.
pub open spec fn keyed(latest: Latest) -> bool {
    forall|symbol: Seq<char>|
        latest.contains_key(symbol) ==> (#[trigger] latest[symbol]).state.symbol == symbol
}

impl LinearTickerDataSnapshot {
    /// Puts each field of `delta` in the place of its own.
    pub fn update(&mut self, delta: LinearTickerDataDelta)
        ensures
            final(self)@ == changed(old(self)@, delta@),
    {
        self.fields.overlay(delta.fields);
    }

    /// A snapshot of the same state.
    pub fn copy(&self) -> (snapshot: Self)
        ensures
            snapshot@ == self@,
    {
        LinearTickerDataSnapshot { symbol: self.symbol.clone(), fields: self.fields.copy() }
    }
}

/// The latest state of each linear ticker.
pub struct LinearSnapshots {
    latest: StringHashMap<Timed<LinearTickerDataSnapshot>>,
}

impl View for LinearSnapshots {
    type V = Latest;

    closed spec fn view(&self) -> Latest {
        self.latest@.map_values(|timed: Timed<LinearTickerDataSnapshot>| timed_state(timed))
    }
}

impl LinearSnapshots {
    /// Every state stands under its own symbol.
    #[verifier::type_invariant]
    spec fn wf(&self) -> bool {
        forall|symbol: Seq<char>| #[trigger]
            self.latest@.contains_key(symbol) ==> self.latest@[symbol].data.symbol@ == symbol
    }

    /// No ticker is known yet.
    pub fn new() -> (snapshots: Self)
        ensures
            keyed(snapshots@),
            snapshots@ == Map::<Seq<char>, TimedState>::empty(),
    {
        let snapshots = LinearSnapshots { latest: StringHashMap::new() };
        assert(snapshots@ =~= Map::<Seq<char>, TimedState>::empty());
        snapshots
    }

    /// Takes in what arrived of a ticker, and gives its whole state to send on. A change of a
    /// ticker that is not known gives nothing.
    pub fn apply(&mut self, ticker: Timed<LinearTickerData>) -> (sent: Option<
        Timed<LinearTickerDataSnapshot>,
    >)
        ensures
            keyed(final(self)@),
            final(self)@ == take_update(old(self)@, ticker_update(ticker)).0,
            match sent {
                Some(timed) => take_update(old(self)@, ticker_update(ticker)).1 == Some(
                    timed_state(timed),
                ),
                None => take_update(old(self)@, ticker_update(ticker)).1 is None,
            },
    {
        proof {
            use_type_invariant(&*self);
        }
        let new = match ticker.data {
            LinearTickerData::Snapshot(snapshot) => Timed { time: ticker.time, data: snapshot },
            LinearTickerData::Delta(delta) => {
                let mut snapshot = match self.latest.get(delta.symbol.as_str()) {
                    Some(timed) => timed.data.copy(),
                    None => return None,
                };
                assert(old(self)@[delta.symbol@].state == snapshot@);
                snapshot.update(delta);
                Timed { time: ticker.time, data: snapshot }
            },
        };
        let kept = Timed { time: new.time, data: new.data.copy() };
        let symbol = new.data.symbol.clone();
        let mut latest: StringHashMap<Timed<LinearTickerDataSnapshot>> = StringHashMap::new();
        std::mem::swap(&mut latest, &mut self.latest);
        latest.insert(symbol, kept);
        self.latest = latest;
        assert(self@ =~= take_update(old(self)@, ticker_update(ticker)).0);
        Some(new)
    }
}

/// What is sent on of a ticker is the state that is kept of it. The states of the other tickers
/// stay as they are, and so do all where nothing is sent on.
pub proof fn law_sent_state_is_kept(latest: Latest, update: TickerUpdate)
    requires
        keyed(latest),
    ensures
        keyed(take_update(latest, update).0),
        match take_update(latest, update).1 {
            Some(sent) => {
                &&& sent.time == update.time
                &&& sent.state.symbol == update.state.symbol
                &&& take_update(latest, update).0 == latest.insert(update.state.symbol, sent)
            },
            None => {
                &&& take_update(latest, update).0 == latest
                &&& !update.whole && !latest.contains_key(update.state.symbol)
            },
        },
{
}

/// A change takes no field away: the state that is sent on after it has every field that the state
/// before it had, with the value of the change where the change has the field.
pub proof fn law_change_keeps_fields(latest: Latest, update: TickerUpdate, field: Seq<char>)
    requires
        !update.whole,
        latest.contains_key(update.state.symbol),
    ensures
        take_update(latest, update).1 matches Some(sent) && {
            let before = latest[update.state.symbol].state.fields;
            let change = update.state.fields;
            &&& sent.state.fields.contains_key(field) <==> before.contains_key(field)
                || change.contains_key(field)
            &&& change.contains_key(field) ==> sent.state.fields[field] == change[field]
            &&& before.contains_key(field) && !change.contains_key(field)
                ==> sent.state.fields[field] == before[field]
        },
{
}

/// The same is known of `symbol` in both.
pub open spec fn agree(one: Latest, other: Latest, symbol: Seq<char>) -> bool {
    &&& one.contains_key(symbol) <==> other.contains_key(symbol)
    &&& one.contains_key(symbol) ==> one[symbol] == other[symbol]
}

/// An update of `symbol` does the same to states that agree on it; an update of another ticker
/// leaves `symbol` alone.
proof fn lemma_update_agrees(one: Latest, other: Latest, update: TickerUpdate, symbol: Seq<char>)
    requires
        keyed(one),
        keyed(other),
        agree(one, other, symbol),
    ensures
        keyed(take_update(one, update).0),
        keyed(take_update(other, update).0),
        update.state.symbol == symbol ==> {
            &&& agree(take_update(one, update).0, take_update(other, update).0, symbol)
            &&& take_update(one, update).1 == take_update(other, update).1
        },
        update.state.symbol != symbol ==> agree(take_update(one, update).0, other, symbol),
        items(take_update(one, update).1).filter(|sent: TimedState| sent.state.symbol == symbol)
            == if update.state.symbol == symbol {
            items(take_update(one, update).1)
        } else {
            seq![]
        },
{
    let sent = items(take_update(one, update).1);
    reveal_with_fuel(Seq::filter, 2);
    if sent.len() > 0 {
        assert(sent.drop_last() =~= seq![]);
        assert(sent =~= seq![sent.last()]);
    }
}

/// A null in a change leaves the field as it was: where every entry of the name `field` holds a null,
/// the state with the change put on top has the field just as the state before it had.
pub proof fn law_null_leaves_a_field(
    base: TickerState,
    entries: Seq<(String, serde_json::Value)>,
    field: Seq<char>,
)
    requires
        forall|i: int|
            0 <= i < entries.len() && (#[trigger] entries[i]).0@ == field ==> value_tree(
                entries[i].1,
            ) is Null,
    ensures
        ({
            let change = TickerState { symbol: base.symbol, fields: present_fields(entries) };
            let after = changed(base, change).fields;
            &&& !change.fields.contains_key(field)
            &&& after.contains_key(field) <==> base.fields.contains_key(field)
            &&& base.fields.contains_key(field) ==> after[field] == base.fields[field]
        }),
    decreases entries.len(),
{
    if entries.len() > 0 {
        law_null_leaves_a_field(base, entries.drop_last(), field);
        assert(entries[entries.len() - 1] == entries.last());
    }
}

/// The tickers do not disturb one another, however their updates are interleaved: what is kept and
/// what is sent on of one ticker is what its own updates alone lead to.
pub proof fn law_tickers_are_independent(
    latest: Latest,
    updates: Seq<TickerUpdate>,
    symbol: Seq<char>,
)
    requires
        keyed(latest),
    ensures
        ({
            let own = updates.filter(|update: TickerUpdate| update.state.symbol == symbol);
            let all_after = latest_after(latest, updates);
            let own_after = latest_after(latest, own);
            &&& keyed(all_after)
            &&& keyed(own_after)
            &&& agree(all_after, own_after, symbol)
            &&& states_sent(latest, updates).filter(
                |sent: TimedState| sent.state.symbol == symbol,
            ) == states_sent(latest, own)
        }),
    decreases updates.len(),
{
    let is_own = |update: TickerUpdate| update.state.symbol == symbol;
    let of_own = |sent: TimedState| sent.state.symbol == symbol;
    reveal(Seq::filter);
    if updates.len() > 0 {
        let before = updates.drop_last();
        let last = updates.last();
        let own = before.filter(is_own);
        law_tickers_are_independent(latest, before, symbol);
        let (known, own_known) = (latest_after(latest, before), latest_after(latest, own));
        lemma_update_agrees(known, own_known, last, symbol);
        let new = items(take_update(known, last).1);
        Seq::filter_distributes_over_add(states_sent(latest, before), new, of_own);
        if is_own(last) {
            assert(updates.filter(is_own) == own.push(last));
            assert(own.push(last).drop_last() =~= own);
        } else {
            assert(updates.filter(is_own) == own);
            assert(states_sent(latest, own) + seq![] =~= states_sent(latest, own));
        }
    }
}

/// A field holds the value that was sent last. Where the update at `at` has the field, was taken
/// (it is a whole state, or a change of a ticker that was known), and no later update of the same
/// ticker has the field or is a whole state, the field holds the value of that update.
pub proof fn law_field_is_the_last_one_sent(
    latest: Latest,
    updates: Seq<TickerUpdate>,
    at: int,
    field: Seq<char>,
)
    requires
        0 <= at < updates.len(),
        updates[at].state.fields.contains_key(field),
        updates[at].whole || latest_after(latest, updates.take(at)).contains_key(
            updates[at].state.symbol,
        ),
        forall|i: int|
            at < i < updates.len() && (#[trigger] updates[i]).state.symbol
                == updates[at].state.symbol ==> !updates[i].whole
                && !updates[i].state.fields.contains_key(field),
    ensures
        ({
            let symbol = updates[at].state.symbol;
            let after = latest_after(latest, updates);
            &&& after.contains_key(symbol)
            &&& after[symbol].state.fields.contains_key(field)
            &&& after[symbol].state.fields[field] == updates[at].state.fields[field]
        }),
    decreases updates.len(),
{
    let before = updates.drop_last();
    if at == updates.len() - 1 {
        assert(updates.take(at) =~= before);
    } else {
        assert(updates.take(at) =~= before.take(at));
        law_field_is_the_last_one_sent(latest, before, at, field);
    }
}

/// What is known of a ticker is its last whole state with every later change put on top: nothing
/// from before a whole state survives it.
pub proof fn law_whole_state_starts_anew(
    latest: Latest,
    updates: Seq<TickerUpdate>,
    at: int,
    symbol: Seq<char>,
)
    requires
        last_whole(updates, at, updates.len() as int, symbol),
    ensures
        latest_after(latest, updates).contains_key(symbol),
        latest_after(latest, updates)[symbol].state == with_changes(
            updates[at].state,
            updates.skip(at + 1),
        ),
    decreases updates.len(),
{
    let before = updates.drop_last();
    let later = updates.skip(at + 1);
    if at < updates.len() - 1 {
        assert(last_whole(before, at, before.len() as int, symbol));
        law_whole_state_starts_anew(latest, before, at, symbol);
        assert(before.skip(at + 1) =~= later.drop_last());
    }
}

/// Of a ticker that no whole state has arrived of, nothing is known.
proof fn lemma_unknown_stays(latest: Latest, updates: Seq<TickerUpdate>, symbol: Seq<char>)
    requires
        !latest.contains_key(symbol),
        forall|i: int|
            0 <= i < updates.len() && (#[trigger] updates[i]).state.symbol == symbol
                ==> !updates[i].whole,
    ensures
        !latest_after(latest, updates).contains_key(symbol),
    decreases updates.len(),
{
    if updates.len() > 0 {
        lemma_unknown_stays(latest, updates.drop_last(), symbol);
    }
}

/// The last whole state of a ticker among the first `n` of `updates`, where there is one.
proof fn lemma_last_whole(updates: Seq<TickerUpdate>, n: int, symbol: Seq<char>) -> (at: int)
    requires
        0 <= n <= updates.len(),
        exists|i: int|
            0 <= i < n && (#[trigger] updates[i]).whole && updates[i].state.symbol == symbol,
    ensures
        last_whole(updates, at, n, symbol),
    decreases n,
{
    if updates[n - 1].whole && updates[n - 1].state.symbol == symbol {
        n - 1
    } else {
        lemma_last_whole(updates, n - 1, symbol)
    }
}

/// Every state that is sent on is the last whole state of its ticker with every later change put
/// on top, up to the update that it is sent after, whose time it has. A change that comes before
/// any whole state of its ticker is not sent on.
pub proof fn law_sent_state_is_the_whole_one_with_changes(updates: Seq<TickerUpdate>, n: int)
    requires
        0 <= n < updates.len(),
    ensures
        ({
            let symbol = updates[n].state.symbol;
            let known = latest_after(Map::empty(), updates.take(n));
            match take_update(known, updates[n]).1 {
                Some(sent) => {
                    &&& sent.time == updates[n].time
                    &&& exists|at: int| #[trigger]
                        last_whole(updates, at, n + 1, symbol) && sent.state == with_changes(
                            updates[at].state,
                            updates.subrange(at + 1, n + 1),
                        )
                },
                None => forall|i: int|
                    0 <= i <= n && (#[trigger] updates[i]).state.symbol == symbol
                        ==> !updates[i].whole,
            }
        }),
{
    let symbol = updates[n].state.symbol;
    let taken = updates.take(n + 1);
    assert(taken.drop_last() =~= updates.take(n));
    assert(taken.last() == updates[n]);
    let known = latest_after(Map::empty(), updates.take(n));
    if exists|i: int|
        0 <= i < n + 1 && (#[trigger] updates[i]).whole && updates[i].state.symbol == symbol {
        let at = lemma_last_whole(updates, n + 1, symbol);
        assert(last_whole(taken, at, taken.len() as int, symbol));
        law_whole_state_starts_anew(Map::empty(), taken, at, symbol);
        assert(taken.skip(at + 1) =~= updates.subrange(at + 1, n + 1));
        if at < n {
            assert(last_whole(updates.take(n), at, n, symbol));
            law_whole_state_starts_anew(Map::empty(), updates.take(n), at, symbol);
        }
    } else {
        assert(!updates[n].whole);
        lemma_unknown_stays(Map::empty(), updates.take(n), symbol);
    }
}

/// The states by update, one after the other, are the states that are sent on.
proof fn lemma_states_by_update(latest: Latest, updates: Seq<TickerUpdate>)
    ensures
        states_by_update(latest, updates).flatten() == states_sent(latest, updates),
        updates.len() > 0 ==> states_by_update(latest, updates).drop_last() == states_by_update(
            latest,
            updates.drop_last(),
        ),
    decreases updates.len(),
{
    let states = states_by_update(latest, updates);
    if updates.len() > 0 {
        let before = updates.drop_last();
        lemma_states_by_update(latest, before);
        assert forall|i: int| 0 <= i < before.len() implies states[i] == states_by_update(
            latest,
            before,
        )[i] by {
            assert(updates.take(i) =~= before.take(i));
        }
        assert(states.drop_last() =~= states_by_update(latest, before));
        assert(updates.take(updates.len() - 1) =~= before);
        states.drop_last().lemma_flatten_push(states.last());
        assert(states.drop_last().push(states.last()) =~= states);
    }
}

/// The states that are delivered while `updates` arrive are those that are sent on, in their order,
/// up to the first whose send fails: that one is not delivered, and nothing comes after it. `oks[i]`
/// are the outcomes for the update at `i`, that at its start and that of its send, if any.
pub proof fn law_states_are_delivered_in_order(
    latest: Latest,
    updates: Seq<TickerUpdate>,
    oks: Seq<Seq<bool>>,
)
    requires
        goes_on(states_by_update(latest, updates), oks),
    ensures
        ({
            let delivered = run_delivered(states_by_update(latest, updates), oks);
            let last = states_by_update(latest, updates).last();
            &&& delivered.is_prefix_of(states_sent(latest, updates))
            &&& updates.len() == 0 || went_well(last, oks.last()) ==> delivered == states_sent(
                latest,
                updates,
            )
            &&& updates.len() > 0 && last.len() > 0 && oks.last() == seq![true, false] ==> delivered
                == states_sent(latest, updates.drop_last())
        }),
{
    let states = states_by_update(latest, updates);
    lemma_states_by_update(latest, updates);
    law_run_is_delivered_in_order(states, oks);
    if updates.len() > 0 && states.last().len() > 0 && oks.last() == seq![true, false] {
        lemma_states_by_update(latest, updates.drop_last());
        law_run_stops_at_a_failure(states, oks, 0);
        assert(run_delivered(states, oks) =~= states_sent(latest, updates.drop_last()));
    }
}

/// At first nothing is known of any ticker.
pub proof fn law_nothing_is_known_at_first(snapshots: LinearSnapshots, symbol: Seq<char>)
    requires
        call_ensures(LinearSnapshots::new, (), snapshots),
    ensures
        !snapshots@.contains_key(symbol),
{
}

/// A whole state of a linear ticker is sent on as it arrived, with its time, and is what is known of
/// the ticker then, whatever was known before. What is known of the others stays.
pub proof fn law_whole_state_is_sent_on(
    snapshots: &mut LinearSnapshots,
    time: u64,
    snapshot: LinearTickerDataSnapshot,
    sent: Option<Timed<LinearTickerDataSnapshot>>,
    other: Seq<char>,
)
    requires
        call_ensures(
            LinearSnapshots::apply,
            (snapshots, Timed { time, data: LinearTickerData::Snapshot(snapshot) }),
            sent,
        ),
    ensures
        sent matches Some(sent) && {
            &&& sent.time == time
            &&& sent.data.symbol@ == snapshot.symbol@
            &&& sent.data.fields@ == snapshot.fields@
            &&& final(snapshots)@.contains_key(snapshot.symbol@)
            &&& final(snapshots)@[snapshot.symbol@].time == time
            &&& final(snapshots)@[snapshot.symbol@].state.fields == snapshot.fields@
        },
        other != snapshot.symbol@ ==> agree(final(snapshots)@, old(snapshots)@, other),
{
}

/// A change of a known linear ticker is sent on as a whole state, with the time of the change: each
/// field of the change has its new value, and every other field the one that it had. It is what is
/// known of the ticker then. A change of an unknown ticker changes nothing, and nothing is sent on.
/// What is known of the others stays.
pub proof fn law_change_is_sent_on(
    snapshots: &mut LinearSnapshots,
    time: u64,
    delta: LinearTickerDataDelta,
    sent: Option<Timed<LinearTickerDataSnapshot>>,
    field: Seq<char>,
    other: Seq<char>,
)
    requires
        keyed(old(snapshots)@),
        call_ensures(
            LinearSnapshots::apply,
            (snapshots, Timed { time, data: LinearTickerData::Delta(delta) }),
            sent,
        ),
    ensures
        old(snapshots)@.contains_key(delta.symbol@) ==> (sent matches Some(sent) && {
            let before = old(snapshots)@[delta.symbol@].state.fields;
            let after = sent.data.fields@;
            &&& sent.time == time
            &&& sent.data.symbol@ == delta.symbol@
            &&& after.contains_key(field) <==> delta.fields@.contains_key(field)
                || before.contains_key(field)
            &&& delta.fields@.contains_key(field) ==> after[field] == delta.fields@[field]
            &&& before.contains_key(field) && !delta.fields@.contains_key(field) ==> after[field]
                == before[field]
            &&& final(snapshots)@.contains_key(delta.symbol@)
            &&& final(snapshots)@[delta.symbol@].time == time
            &&& final(snapshots)@[delta.symbol@].state.fields == after
        }),
        !old(snapshots)@.contains_key(delta.symbol@) ==> sent is None && final(snapshots)@
            == old(snapshots)@,
        other != delta.symbol@ ==> agree(final(snapshots)@, old(snapshots)@, other),
{
}

/// A change that is put on top of a state gives each of its fields its new value, and leaves the
/// symbol and every other field as they were.
pub proof fn law_change_is_put_on_top(
    snapshot: &mut LinearTickerDataSnapshot,
    delta: LinearTickerDataDelta,
    field: Seq<char>,
)
    requires
        call_ensures(LinearTickerDataSnapshot::update, (snapshot, delta), ()),
    ensures
        final(snapshot).symbol@ == old(snapshot).symbol@,
        final(snapshot).fields@.contains_key(field) <==> delta.fields@.contains_key(field)
            || old(snapshot).fields@.contains_key(field),
        delta.fields@.contains_key(field) ==> final(snapshot).fields@[field] == delta.fields@[field],
        old(snapshot).fields@.contains_key(field) && !delta.fields@.contains_key(field) ==>
            final(snapshot).fields@[field] == old(snapshot).fields@[field],
{
    assert(final(snapshot)@ == changed(old(snapshot)@, delta@));
    assert(final(snapshot)@.fields == final(snapshot).fields@);
}

/// What a snapshot is seen as is what it holds.
pub proof fn law_snapshots_are_what_they_seem(timed: Timed<LinearTickerDataSnapshot>)
    ensures
        timed_state(timed).time == timed.time,
        timed_state(timed).state.symbol == timed.data.symbol@,
        timed_state(timed).state.fields == timed.data.fields@,
{
}

/// An event of a linear ticker reaches the states: a change of a known ticker that arrives as an event
/// is taken from it, and leads to a state with the fields of the change and the time of the event; a
/// whole state that arrives as an event is taken from it and replaces what was known.
pub proof fn law_linear_events_reach_the_states(
    latest: Latest,
    ts: u64,
    linear: LinearTickerData,
    taken: Vec<Timed<LinearTickerData>>,
)
    requires
        keyed(latest),
        call_ensures(
            take_timed_linear_tickers,
            (WebsocketEvents::TickerEvent(WsTicker { ts, data: Ticker::Linear(linear) }),),
            taken,
        ),
    ensures
        taken@.len() == 1,
        match linear {
            LinearTickerData::Snapshot(snapshot) => take_update(
                latest,
                ticker_update(taken@[0]),
            ).1 matches Some(sent) && {
                &&& sent.time == ts
                &&& sent.state.symbol == snapshot.symbol@
                &&& sent.state.fields == snapshot.fields@
            },
            LinearTickerData::Delta(delta) => latest.contains_key(delta.symbol@) ==> (take_update(
                latest,
                ticker_update(taken@[0]),
            ).1 matches Some(sent) && {
                &&& sent.time == ts
                &&& sent.state.symbol == delta.symbol@
                &&& forall|field: Seq<char>| #[trigger]
                    delta.fields@.contains_key(field) ==> sent.state.fields.contains_key(field)
                        && sent.state.fields[field] == delta.fields@[field]
            }),
        },
{
    let event = WebsocketEvents::TickerEvent(WsTicker { ts, data: Ticker::Linear(linear) });
    law_every_linear_ticker_is_taken(event, taken);
    assert(taken@[0] == Timed { time: ts, data: linear });
}

} // verus!
