//! Items on their way into a channel.
use vstd::prelude::*;
use crate::error::BybitError;

verus! {

/// The items that are still to be sent into a channel.
pub struct Outbox<T> {
    /// The items, the next one last.
    pending: Vec<T>,
}

impl<T> View for Outbox<T> {
    type V = Seq<T>;

    closed spec fn view(&self) -> Seq<T> {
        self.pending@.reverse()
    }
}

/// The item that comes next, and the items that are pending behind it. Where the send before it
/// failed (`ok` is false) nothing comes, and all stay.
pub open spec fn next_item<T>(pending: Seq<T>, ok: bool) -> (Option<T>, Seq<T>) {
    if ok && pending.len() > 0 {
        (Some(pending[0]), pending.drop_first())
    } else {
        (None, pending)
    }
}

/// The items that are handed out to be sent, one after the other. `oks` are the outcome at the
/// start, which is good, and then the outcome of the send of each item.
pub open spec fn items_handed_out<T>(pending: Seq<T>, oks: Seq<bool>) -> Seq<T>
    decreases oks.len(),
{
    if oks.len() == 0 {
        seq![]
    } else {
        match next_item(pending, oks[0]) {
            (Some(item), rest) => seq![item] + items_handed_out(rest, oks.drop_first()),
            (None, _) => seq![],
        }
    }
}

/// The items that are delivered: those handed out whose own send went well. An item is handed out
/// after the outcome at its place in `oks`, and the outcome of its send comes next.
pub open spec fn items_delivered<T>(pending: Seq<T>, oks: Seq<bool>) -> Seq<T>
    decreases oks.len(),
{
    if oks.len() > 1 && oks[1] {
        match next_item(pending, oks[0]) {
            (Some(item), rest) => seq![item] + items_delivered(rest, oks.drop_first()),
            (None, _) => seq![],
        }
    } else {
        seq![]
    }
}

/// Every send went well, and the outbox was asked once more after the last: `oks` are the outcome
/// at the start, which is good, and those of the sends.
pub open spec fn went_well<T>(pending: Seq<T>, oks: Seq<bool>) -> bool {
    &&& oks.len() > pending.len()
    &&& forall|i: int| 0 <= i <= pending.len() ==> #[trigger] oks[i]
}

/// What is delivered over a run of `batches`, each with an outbox of its own; `oks[i]` are the
/// outcomes for the batch at `i`.
pub open spec fn run_delivered<T>(batches: Seq<Seq<T>>, oks: Seq<Seq<bool>>) -> Seq<T> {
    Seq::new(batches.len(), |i: int| items_delivered(batches[i], oks[i])).flatten()
}

/// A run goes on after a batch only where every send of it went well.
pub open spec fn goes_on<T>(batches: Seq<Seq<T>>, oks: Seq<Seq<bool>>) -> bool {
    &&& oks.len() == batches.len()
    &&& forall|i: int| 0 <= i < batches.len() - 1 ==> went_well(#[trigger] batches[i], oks[i])
}

impl<T> Outbox<T> {
    /// The items are to be sent in their order.
    pub fn new(items: Vec<T>) -> (outbox: Self)
        ensures
            outbox@ == items@,
    {
        let mut rest = items;
        let mut pending: Vec<T> = Vec::new();
        while rest.len() > 0
            invariant
                rest@ + pending@.reverse() =~= items@,
            decreases rest.len(),
        {
            let item = rest.pop().unwrap();
            pending.push(item);
        }
        Outbox { pending }
    }

    /// The next item to send, after a send with the outcome `last` (`Ok` at the start). Where
    /// that send failed nothing more is handed out, and the failure is reported.
    pub fn next(&mut self, last: Result<(), String>) -> (r: Result<Option<T>, BybitError>)
        ensures
            match last {
                Err(text) => r matches Err(BybitError::ChannelSendError { underlying })
                    && underlying == text,
                Ok(()) => r matches Ok(item) && item == next_item(old(self)@, true).0,
            },
            final(self)@ == next_item(old(self)@, last is Ok).1,
    {
        match last {
            Err(text) => Err(BybitError::ChannelSendError { underlying: text }),
            Ok(()) => Ok(self.pending.pop()),
        }
    }
}

/// An outbox begins with all the items, each at its place.
pub proof fn law_outbox_begins_with_all<T>(items: Vec<T>, outbox: Outbox<T>)
    requires
        call_ensures(Outbox::<T>::new, (items,), outbox),
    ensures
        outbox@.len() == items@.len(),
        forall|i: int| 0 <= i < items@.len() ==> #[trigger] outbox@[i] == items@[i],
{
}

/// After a good outcome the first of the items is handed out and the others stay behind it in their
/// order; where there is none left, none is. A bad outcome is reported in its own words, and nothing
/// is handed out.
pub proof fn law_next_item_is_the_first<T>(
    outbox: &mut Outbox<T>,
    last: Result<(), String>,
    r: Result<Option<T>, BybitError>,
)
    requires
        call_ensures(Outbox::<T>::next, (outbox, last), r),
    ensures
        last is Ok && old(outbox)@.len() > 0 ==> {
            &&& r matches Ok(Some(item)) && item == old(outbox)@[0]
            &&& final(outbox)@.len() == old(outbox)@.len() - 1
            &&& forall|i: int|
                0 <= i < final(outbox)@.len() ==> #[trigger] final(outbox)@[i] == old(outbox)@[i
                    + 1]
        },
        last is Ok && old(outbox)@.len() == 0 ==> (r matches Ok(None)) && final(outbox)@.len()
            == 0,
        last matches Err(text) ==> (r matches Err(BybitError::ChannelSendError { underlying })
            && underlying@ == text@),
{
}

/// The items are handed out in their order, each once, until all are or a send fails: where the
/// first `n` outcomes, that at the start among them, are good and the next, if any, is not, the
/// first `n` items are handed out.
pub proof fn law_items_are_handed_out_in_order<T>(pending: Seq<T>, oks: Seq<bool>, n: int)
    requires
        0 <= n <= oks.len(),
        forall|i: int| 0 <= i < n ==> oks[i],
        n < oks.len() ==> !oks[n],
    ensures
        items_handed_out(pending, oks) == pending.take(
            if n < pending.len() {
                n
            } else {
                pending.len() as int
            },
        ),
    decreases oks.len(),
{
    let handed_out = pending.take(if n < pending.len() { n } else { pending.len() as int });
    if n > 0 && pending.len() > 0 {
        law_items_are_handed_out_in_order(pending.drop_first(), oks.drop_first(), n - 1);
    }
    assert(items_handed_out(pending, oks) =~= handed_out);
}

/// The items are delivered in their order, each once, until all are or a send fails: where the
/// start and the first `k` sends are good and the next send fails, is not made yet or is not to be
/// made, exactly the first `k` items are delivered. An item whose send failed is not among them.
pub proof fn law_items_are_delivered_in_order<T>(pending: Seq<T>, oks: Seq<bool>, k: int)
    requires
        0 <= k <= pending.len(),
        k < oks.len(),
        forall|i: int| 0 <= i <= k ==> oks[i],
        k + 1 < oks.len() && k < pending.len() ==> !oks[k + 1],
    ensures
        items_delivered(pending, oks) == pending.take(k),
    decreases oks.len(),
{
    if k > 0 {
        law_items_are_delivered_in_order(pending.drop_first(), oks.drop_first(), k - 1);
    }
    assert(items_delivered(pending, oks) =~= pending.take(k));
}

/// What is delivered is a beginning of what is handed out, which is a beginning of what was
/// pending. At most one item is handed out without being delivered: the last one, whose send failed
/// or is not made yet. All is delivered where every send goes well.
pub proof fn law_delivered_is_a_beginning<T>(pending: Seq<T>, oks: Seq<bool>)
    ensures
        items_delivered(pending, oks).is_prefix_of(items_handed_out(pending, oks)),
        items_handed_out(pending, oks).is_prefix_of(pending),
        items_handed_out(pending, oks).len() <= items_delivered(pending, oks).len() + 1,
        went_well(pending, oks) ==> items_delivered(pending, oks) == pending,
    decreases oks.len(),
{
    if oks.len() > 0 && oks[0] && pending.len() > 0 {
        law_delivered_is_a_beginning(pending.drop_first(), oks.drop_first());
        assert(items_handed_out(pending, oks) =~= seq![pending[0]] + items_handed_out(
            pending.drop_first(),
            oks.drop_first(),
        ));
        if oks.len() == 1 || !oks[1] {
            assert(items_handed_out(pending.drop_first(), oks.drop_first()) =~= seq![]);
        }
    }
    if went_well(pending, oks) {
        assert(oks[0]);
        law_items_are_delivered_in_order(pending, oks, pending.len() as int);
        assert(pending.take(pending.len() as int) =~= pending);
    }
}

/// What is delivered over a run is every batch before the last, and what is delivered of the last.
proof fn lemma_run_delivered<T>(batches: Seq<Seq<T>>, oks: Seq<Seq<bool>>)
    requires
        goes_on(batches, oks),
        batches.len() > 0,
    ensures
        run_delivered(batches, oks) == batches.drop_last().flatten() + items_delivered(
            batches.last(),
            oks.last(),
        ),
        batches.flatten() == batches.drop_last().flatten() + batches.last(),
{
    let before = batches.drop_last();
    let delivered = Seq::new(batches.len(), |i: int| items_delivered(batches[i], oks[i]));
    assert forall|i: int| 0 <= i < before.len() implies delivered[i] == before[i] by {
        assert(went_well(batches[i], oks[i]));
        law_delivered_is_a_beginning(batches[i], oks[i]);
    }
    before.lemma_flatten_push(delivered.last());
    assert(before.push(delivered.last()) =~= delivered);
    before.lemma_flatten_push(batches.last());
    assert(before.push(batches.last()) =~= batches);
}

/// Over a run the batches are delivered one after the other, each in its order: all of them where
/// every send goes well, and otherwise a beginning of them.
pub proof fn law_run_is_delivered_in_order<T>(batches: Seq<Seq<T>>, oks: Seq<Seq<bool>>)
    requires
        goes_on(batches, oks),
    ensures
        run_delivered(batches, oks).is_prefix_of(batches.flatten()),
        batches.len() == 0 || went_well(batches.last(), oks.last()) ==> run_delivered(batches, oks)
            == batches.flatten(),
{
    if batches.len() > 0 {
        lemma_run_delivered(batches, oks);
        law_delivered_is_a_beginning(batches.last(), oks.last());
        let delivered = run_delivered(batches, oks);
        assert(delivered =~= batches.flatten().subrange(0, delivered.len() as int));
    }
}

/// Where a send fails, what was delivered over the run is every earlier batch, and then the items of
/// the last batch whose sends went well before the failure: the item that could not be sent is not
/// among them, and nothing comes after it.
pub proof fn law_run_stops_at_a_failure<T>(batches: Seq<Seq<T>>, oks: Seq<Seq<bool>>, k: int)
    requires
        goes_on(batches, oks),
        batches.len() > 0,
        0 <= k < batches.last().len(),
        k + 1 < oks.last().len(),
        forall|i: int| 0 <= i <= k ==> oks.last()[i],
        !oks.last()[k + 1],
    ensures
        run_delivered(batches, oks) == batches.drop_last().flatten() + batches.last().take(k),
{
    lemma_run_delivered(batches, oks);
    law_items_are_delivered_in_order(batches.last(), oks.last(), k);
}

} // verus!
