//! The transient store: an append-only log of orders, and the handle that
//! shares one log between many holders behind a lock.

use crate::models::Order;
use std::sync::Arc;
use vstd::prelude::*;
use vstd::rwlock::RwLock;
use vstd::rwlock::RwLockPredicate;

verus! {

/// The log that holds nothing.
pub open spec fn log_empty() -> Seq<Order> {
    Seq::empty()
}

/// The log after `order` was inserted into `log`: `order` stands last, and
/// what was there before stands as it was.
pub open spec fn log_insert(log: Seq<Order>, order: Order) -> Seq<Order> {
    log.push(order)
}

/// What a fetch from `log` hands out: all of it, in insertion order.
pub open spec fn log_fetch(log: Seq<Order>) -> Seq<Order> {
    log
}

/// The log after each order of `orders` was inserted into `log`, one insert
/// after the other, first to last.
pub open spec fn log_insert_each(log: Seq<Order>, orders: Seq<Order>) -> Seq<Order>
    decreases orders.len(),
{
    if orders.len() == 0 {
        log
    } else {
        log_insert(log_insert_each(log, orders.drop_last()), orders.last())
    }
}

/// A fetch from a log into which nothing was inserted hands out nothing.
pub proof fn lemma_empty_log_fetches_nothing()
    ensures
        log_fetch(log_empty()) == Seq::<Order>::empty(),
        log_fetch(log_empty()).len() == 0,
{
}

/// A fetch after a run of inserts hands out what the log held before, then
/// every inserted order, each once, unchanged and in the order of the
/// inserts. Into an empty log, it hands out exactly the inserted orders.
pub proof fn lemma_inserts_are_kept(log: Seq<Order>, orders: Seq<Order>)
    ensures
        log_fetch(log_insert_each(log, orders)) == log + orders,
        log_fetch(log_insert_each(log, orders)).len() == log.len() + orders.len(),
        log_fetch(log_insert_each(log_empty(), orders)) == orders,
    decreases orders.len(),
{
    if orders.len() > 0 {
        lemma_inserts_are_kept(log, orders.drop_last());
        assert(log + orders == (log + orders.drop_last()).push(orders.last()));
    }
    lemma_inserts_into_empty(orders);
}

/// Inserting `orders` one by one into an empty log gives `orders`.
proof fn lemma_inserts_into_empty(orders: Seq<Order>)
    ensures
        log_insert_each(log_empty(), orders) == orders,
    decreases orders.len(),
{
    if orders.len() > 0 {
        lemma_inserts_into_empty(orders.drop_last());
        assert(orders == orders.drop_last().push(orders.last()));
    }
}

/// Inserts that were issued at the same time are served one at a time, in an
/// order that the lock picks. Whichever order that is, a fetch afterwards
/// hands out as many orders as were issued, and each issued order as often as
/// it was issued: none is lost and none is doubled.
pub proof fn lemma_concurrent_inserts_are_kept(issued: Seq<Order>, served: Seq<Order>)
    requires
        served.to_multiset() == issued.to_multiset(),
    ensures
        log_fetch(log_insert_each(log_empty(), served)).len() == issued.len(),
        log_fetch(log_insert_each(log_empty(), served)).to_multiset() == issued.to_multiset(),
{
    lemma_inserts_into_empty(served);
    served.to_multiset_ensures();
    issued.to_multiset_ensures();
}

/// An opaque failure of a repository operation.
#[derive(Debug)]
pub struct RepoError {
    pub message: String,
}

/// The orders of a transient store, in the order in which they were inserted.
/// Nothing is ever taken out of it, and nothing in it is ever changed.
#[derive(Debug)]
pub struct OrderLog {
    entries: Vec<Order>,
}

impl View for OrderLog {
    type V = Seq<Order>;

    closed spec fn view(&self) -> Seq<Order> {
        self.entries@
    }
}

impl OrderLog {
    /// A log that holds nothing.
    pub fn new() -> (log: Self)
        ensures
            log@ == log_empty(),
    {
        OrderLog { entries: Vec::new() }
    }

    /// How many orders the log holds.
    pub fn len(&self) -> (count: usize)
        ensures
            count == self@.len(),
    {
        self.entries.len()
    }

    /// Puts a copy of `order` at the end of the log.
    pub fn insert_order(&mut self, order: &Order)
        ensures
            final(self)@ == log_insert(old(self)@, *order),
    {
        self.entries.push(order.clone());
    }

    /// A copy of every order in the log, in insertion order. The copy is the
    /// caller's own: later inserts do not reach it.
    pub fn get_orders(&self) -> (orders: Vec<Order>)
        ensures
            orders@ == log_fetch(self@),
    {
        let mut orders: Vec<Order> = Vec::new();
        let mut at: usize = 0;
        while at < self.entries.len()
            invariant
                at <= self.entries.len(),
                orders@ == self.entries@.take(at as int),
            decreases self.entries.len() - at,
        {
            orders.push(self.entries[at].clone());
            at = at + 1;
        }
        assert(self.entries@.take(at as int) == self.entries@);
        orders
    }
}

/// The capability that every store of orders offers.
pub trait OrderRepo: Send + Sync {
    /// Records `order`.
    fn insert_order(&self, order: &Order);

    /// A snapshot of the recorded orders.
    fn get_orders(&self) -> Result<Vec<Order>, RepoError>;
}

/// What the lock of a transient store asks of the log it guards: nothing.
pub struct AnyLog;

impl RwLockPredicate<OrderLog> for AnyLog {
    open spec fn inv(self, log: OrderLog) -> bool {
        true
    }
}

/// A transient store: one log behind one lock, shared by every holder of the
/// handle. What it holds is lost when the process ends.
pub struct InMemoryOrderRepo {
    orders: Arc<RwLock<OrderLog, AnyLog>>,
}

impl InMemoryOrderRepo {
    /// A store that holds nothing: its log is made by `OrderLog::new`.
    ///
    /// The log goes behind the lock at once, and from then on it is no part
    /// of the handle's value: every holder may change it. So no clause here
    /// speaks of it. That the log starts empty is the contract of
    /// `OrderLog::new`.
    pub fn new() -> Self {
        Self { orders: Arc::new(RwLock::new(OrderLog::new(), Ghost(AnyLog))) }
    }

    /// A store that holds nothing, ready to be shared. As with `new`, what
    /// the store holds is no part of the handle's value.
    pub fn new_with_arc() -> Arc<Self> {
        Arc::new(InMemoryOrderRepo::new())
    }
}

impl OrderRepo for InMemoryOrderRepo {
    /// Takes the lock, inserts a copy of `order` into the log, and gives the
    /// lock back.
    fn insert_order(&self, order: &Order) {
        let (mut log, handle) = self.orders.acquire_write();
        log.insert_order(order);
        handle.release_write(log);
    }

    /// Takes the lock, copies the log, and gives the lock back. It never
    /// fails.
    ///
    /// What comes back is `OrderLog::get_orders` of the log as it stood while
    /// the lock was held: all of it, in insertion order. Which inserts of
    /// other holders had been served by then is not for this holder to know,
    /// so the contract states only that the fetch succeeds.
    fn get_orders(&self) -> (fetched: Result<Vec<Order>, RepoError>)
        ensures
            fetched is Ok,
    {
        let handle = self.orders.acquire_read();
        let orders = handle.borrow().get_orders();
        handle.release_read();
        Ok(orders)
    }
}

} // verus!
