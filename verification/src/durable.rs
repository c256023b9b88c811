//! The decisions of a bounded read from a durable document store.
//!
//! The store is reached through a cursor that only the caller can drive: it
//! is asked to advance, and reports a document, its end, or a failure. This
//! module decides what follows each report. The read keeps at most
//! `FETCH_LIMIT` orders, and one failure ends it with nothing handed out.

use crate::models::Order;
use vstd::prelude::*;

verus! {

/// The most orders that one read hands out.
pub const FETCH_LIMIT: usize = 100;

/// The collection that holds the orders.
pub fn orders_collection() -> (name: &'static str)
    ensures
        name@ == "orders"@,
{
    "orders"
}

/// What the cursor reported when it was asked to advance.
pub enum CursorEvent<E> {
    /// It moved to a document, and the document read as this order.
    Document(Order),
    /// It has no more documents.
    Exhausted,
    /// It could not advance, or the document did not read as an order.
    Failed(E),
}

/// What follows a report of the cursor.
pub enum FetchStep<E> {
    /// The read goes on from this state: ask the cursor to advance.
    Advance(OrderFetch),
    /// The read is over, with these orders or with the failure that ended it.
    Finished(Result<Vec<Order>, E>),
}

/// A step as contracts speak of it: the orders by their sequence.
pub enum StepView<E> {
    Advance(Seq<Order>),
    Finished(Result<Seq<Order>, E>),
}

impl<E> View for FetchStep<E> {
    type V = StepView<E>;

    open spec fn view(&self) -> StepView<E> {
        match *self {
            FetchStep::Advance(fetch) => StepView::Advance(fetch@),
            FetchStep::Finished(Ok(orders)) => StepView::Finished(Ok(orders@)),
            FetchStep::Finished(Err(error)) => StepView::Finished(Err(error)),
        }
    }
}

/// What follows when `event` comes to a read that has `collected` in hand.
///
/// A document for which there is room is kept, after those collected before
/// it, and the read goes on. A document that comes when `FETCH_LIMIT` orders
/// are in hand is not kept, and ends the read with those orders. The cursor's
/// end ends the read with the orders in hand. A failure ends the read with
/// that failure, and the orders in hand are dropped.
pub open spec fn step_of<E>(collected: Seq<Order>, event: CursorEvent<E>) -> StepView<E> {
    match event {
        CursorEvent::Document(order) => if collected.len() < FETCH_LIMIT {
            StepView::Advance(collected.push(order))
        } else {
            StepView::Finished(Ok(collected))
        },
        CursorEvent::Exhausted => StepView::Finished(Ok(collected)),
        CursorEvent::Failed(error) => StepView::Finished(Err(error)),
    }
}

/// Where a read that has `collected` in hand stands after the cursor reported
/// `events`, first to last. Reports that come after the read is over count
/// for nothing.
pub open spec fn run_of<E>(collected: Seq<Order>, events: Seq<CursorEvent<E>>) -> StepView<E>
    decreases events.len(),
{
    if events.len() == 0 {
        StepView::Advance(collected)
    } else {
        match step_of(collected, events.first()) {
            StepView::Advance(next) => run_of(next, events.drop_first()),
            StepView::Finished(outcome) => StepView::Finished(outcome),
        }
    }
}

/// The reports of a cursor that moves through `orders`, one document each.
pub open spec fn documents<E>(orders: Seq<Order>) -> Seq<CursorEvent<E>> {
    Seq::new(orders.len(), |i: int| CursorEvent::Document(orders[i]))
}

/// The first `FETCH_LIMIT` orders of `orders`, or all of them where there are
/// fewer.
pub open spec fn within_limit(orders: Seq<Order>) -> Seq<Order> {
    if orders.len() <= FETCH_LIMIT {
        orders
    } else {
        orders.take(FETCH_LIMIT as int)
    }
}

/// However many documents the cursor reports, and whatever else it reports, a
/// read never has more than `FETCH_LIMIT` orders in hand and never hands out
/// more than `FETCH_LIMIT`.
pub proof fn lemma_fetch_is_bounded<E>(collected: Seq<Order>, events: Seq<CursorEvent<E>>)
    requires
        collected.len() <= FETCH_LIMIT,
    ensures
        match run_of(collected, events) {
            StepView::Advance(held) => held.len() <= FETCH_LIMIT,
            StepView::Finished(Ok(orders)) => orders.len() <= FETCH_LIMIT,
            StepView::Finished(Err(_)) => true,
        },
    decreases events.len(),
{
    if events.len() > 0 {
        match step_of(collected, events.first()) {
            StepView::Advance(next) => {
                lemma_fetch_is_bounded(next, events.drop_first());
            },
            StepView::Finished(_) => {},
        }
    }
}

/// A read over a store that holds `stored`, whose cursor reports each of them
/// and then its end, hands out the stored orders themselves, equal on every
/// field and in the cursor's order: all of them where they are at most
/// `FETCH_LIMIT`, and the first `FETCH_LIMIT` otherwise.
pub proof fn lemma_fetch_hands_out_what_is_stored<E>(stored: Seq<Order>)
    ensures
        run_of(Seq::empty(), documents::<E>(stored).push(CursorEvent::Exhausted))
            == StepView::<E>::Finished(Ok(within_limit(stored))),
{
    lemma_fetch_from(Seq::empty(), stored, CursorEvent::<E>::Exhausted, Seq::empty());
    assert(Seq::<Order>::empty() + stored == stored);
    assert(documents::<E>(stored).push(CursorEvent::Exhausted) + Seq::empty() == documents::<E>(
        stored,
    ).push(CursorEvent::Exhausted));
}

/// A failure ends the read with that failure, whatever was collected before
/// it and whatever the cursor reports after it: no part of the orders is
/// handed out.
pub proof fn lemma_failure_ends_fetch<E>(
    stored: Seq<Order>,
    error: E,
    later: Seq<CursorEvent<E>>,
)
    requires
        stored.len() <= FETCH_LIMIT,
    ensures
        run_of(Seq::empty(), documents::<E>(stored).push(CursorEvent::Failed(error)) + later)
            == StepView::<E>::Finished(Err(error)),
{
    lemma_fetch_from(Seq::empty(), stored, CursorEvent::Failed(error), later);
    assert(Seq::<Order>::empty() + stored == stored);
}

/// Where the read stands once the cursor has reported the documents `rest`
/// and then `last`, which is no document, to a read with `collected` in hand.
proof fn lemma_fetch_from<E>(
    collected: Seq<Order>,
    rest: Seq<Order>,
    last: CursorEvent<E>,
    later: Seq<CursorEvent<E>>,
)
    requires
        collected.len() <= FETCH_LIMIT,
        !(last is Document),
    ensures
        run_of(collected, documents::<E>(rest).push(last) + later) == if (collected + rest).len()
            <= FETCH_LIMIT {
            step_of(collected + rest, last)
        } else {
            StepView::<E>::Finished(Ok(within_limit(collected + rest)))
        },
    decreases rest.len(),
{
    let events = documents::<E>(rest).push(last) + later;
    if rest.len() == 0 {
        assert(events.first() == last);
        assert(collected + rest == collected);
    } else {
        assert(events.first() == CursorEvent::<E>::Document(rest.first()));
        if collected.len() < FETCH_LIMIT {
            let next = collected.push(rest.first());
            assert(events.drop_first() == documents::<E>(rest.drop_first()).push(last) + later);
            lemma_fetch_from(next, rest.drop_first(), last, later);
            assert(next + rest.drop_first() == collected + rest);
        } else {
            assert((collected + rest).take(FETCH_LIMIT as int) == collected);
        }
    }
}

/// A read in progress: the orders collected so far, first to last. It never
/// holds more than `FETCH_LIMIT` of them.
pub struct OrderFetch {
    collected: Vec<Order>,
}

impl View for OrderFetch {
    type V = Seq<Order>;

    closed spec fn view(&self) -> Seq<Order> {
        self.collected@
    }
}

impl OrderFetch {
    #[verifier::type_invariant]
    spec fn holds_at_most_limit(self) -> bool {
        self.collected@.len() <= FETCH_LIMIT
    }

    /// A read that has collected nothing yet.
    pub fn begin() -> (fetch: Self)
        ensures
            fetch@ == Seq::<Order>::empty(),
    {
        OrderFetch { collected: Vec::new() }
    }

    /// How many orders the read has collected; never more than `FETCH_LIMIT`.
    pub fn collected_len(&self) -> (count: usize)
        ensures
            count == self@.len(),
            count <= FETCH_LIMIT,
    {
        proof {
            use_type_invariant(self);
        }
        self.collected.len()
    }

    /// Takes one report of the cursor and says what follows: `step_of` of the
    /// orders in hand and the report.
    pub fn on_event<E>(self, event: CursorEvent<E>) -> (step: FetchStep<E>)
        ensures
            self@.len() <= FETCH_LIMIT,
            step@ == step_of(self@, event),
    {
        proof {
            use_type_invariant(&self);
        }
        let mut collected = self.collected;
        match event {
            CursorEvent::Document(order) => {
                if collected.len() < FETCH_LIMIT {
                    collected.push(order);
                    FetchStep::Advance(OrderFetch { collected })
                } else {
                    FetchStep::Finished(Ok(collected))
                }
            },
            CursorEvent::Exhausted => FetchStep::Finished(Ok(collected)),
            CursorEvent::Failed(error) => FetchStep::Finished(Err(error)),
        }
    }
}

} // verus!
