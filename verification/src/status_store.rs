//! The status store: a process-wide concurrent map from order id to
//! processing state, letting clients poll the outcome of an
//! asynchronously processed order.
//!
//! The map itself is dashmap's sharded hash map; what this module
//! verifies is the transition discipline on top of it: an entry is
//! inserted as `Pending` at admission and moves at most once to a
//! terminal state — a terminal state is never overwritten.

use vstd::prelude::*;

use crate::domain::OrderProcessingStatus;

verus! {

/// Concurrent map from order id to [`OrderProcessingStatus`].
#[verifier::external_body]
pub struct StatusStore {
    entries: dashmap::DashMap<u128, OrderProcessingStatus>,
}

/// What the store holds: its entries as a map from order id to state.
pub uninterp spec fn store_entries(s: StatusStore) -> Map<u128, OrderProcessingStatus>;

/// The store holds nothing.
pub open spec fn no_entries(entries: Map<u128, OrderProcessingStatus>) -> bool {
    entries == Map::<u128, OrderProcessingStatus>::empty()
}

impl StatusStore {
    /// Relies on `dashmap::DashMap::new`: the new map is empty.
    #[verifier::external_body]
    pub fn new() -> (store: StatusStore)
        ensures
            no_entries(store_entries(store)),
    {
        StatusStore { entries: dashmap::DashMap::new() }
    }

    /// Relies on `dashmap::DashMap::get`: returns the value stored
    /// under `order_id`, if any (cloned out of the map's guard).
    #[verifier::external_body]
    fn get_raw(&self, order_id: u128) -> (r: Option<OrderProcessingStatus>)
        ensures
            r matches Some(state) ==> store_entries(*self).dom().contains(order_id) && state
                == store_entries(*self)[order_id],
            r is None ==> !store_entries(*self).dom().contains(order_id),
    {
        self.entries.get(&order_id).map(|entry| entry.value().clone())
    }

    /// Relies on `dashmap::DashMap::insert`: stores `state` under
    /// `order_id`, replacing any prior value.
    #[verifier::external_body]
    fn insert_raw(&mut self, order_id: u128, state: OrderProcessingStatus)
        ensures
            store_entries(*final(self)) == store_entries(*old(self)).insert(order_id, state),
    {
        self.entries.insert(order_id, state);
    }

    /// Relies on `dashmap::DashMap::len`: the number of entries.
    #[verifier::external_body]
    pub fn len(&self) -> (n: usize)
        ensures
            n == store_entries(*self).dom().len(),
    {
        self.entries.len()
    }

    /// Current processing state of `order_id`, if the store holds one.
    pub fn get(&self, order_id: u128) -> (r: Option<OrderProcessingStatus>)
        ensures
            r matches Some(state) ==> store_entries(*self).dom().contains(order_id) && state
                == store_entries(*self)[order_id],
            r is None ==> !store_entries(*self).dom().contains(order_id),
    {
        self.get_raw(order_id)
    }

    /// Records that `order_id` was admitted: inserts `Pending`, unless
    /// the store already holds a terminal state for it — a retried
    /// admission must not roll a finished order back.
    pub fn record_pending(&mut self, order_id: u128)
        ensures
            store_entries(*final(self)) == if store_entries(*old(self)).dom().contains(order_id)
                && store_entries(*old(self))[order_id].is_terminal() {
                store_entries(*old(self))
            } else {
                store_entries(*old(self)).insert(order_id, OrderProcessingStatus::Pending)
            },
    {
        match self.get_raw(order_id) {
            Some(OrderProcessingStatus::Pending) => {
                self.insert_raw(order_id, OrderProcessingStatus::Pending);
                proof {
                    assert(store_entries(*self) =~= store_entries(*old(self)).insert(
                        order_id,
                        OrderProcessingStatus::Pending,
                    ));
                }
            },
            Some(_) => {
            },
            None => {
                self.insert_raw(order_id, OrderProcessingStatus::Pending);
            },
        }
    }

    /// Records the worker's outcome for `order_id`: moves a `Pending`
    /// (or missing) entry to the given terminal state.  A terminal
    /// state already stored stays untouched: transitions are monotone,
    /// `Pending` to terminal and never back.
    pub fn finalize(&mut self, order_id: u128, outcome: OrderProcessingStatus) -> (updated: bool)
        requires
            outcome.is_terminal(),
        ensures
            store_entries(*final(self)) == if store_entries(*old(self)).dom().contains(order_id)
                && store_entries(*old(self))[order_id].is_terminal() {
                store_entries(*old(self))
            } else {
                store_entries(*old(self)).insert(order_id, outcome)
            },
            updated == !(store_entries(*old(self)).dom().contains(order_id) && store_entries(
                *old(self),
            )[order_id].is_terminal()),
    {
        match self.get_raw(order_id) {
            Some(OrderProcessingStatus::Pending) | None => {
                self.insert_raw(order_id, outcome);
                true
            },
            Some(_) => false,
        }
    }
}

} // verus!
