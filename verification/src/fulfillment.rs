//! The fulfillment transaction: the serializable core that debits
//! inventory and persists an order, atomically and idempotently.
//!
//! The transaction is verified against [`Database`], an in-memory image
//! of the two tables the transaction touches.  Its invariant carries the
//! two universal guarantees of the service: confirmed quantities of a
//! sale always equal the inventory debited from it, and at most one
//! order exists per idempotency key.  The service's worker replays the
//! same decisions against the real database, one statement per step,
//! inside a row lock that serializes concurrent fulfillments.

use vstd::prelude::*;
use vstd::string::StringExecFns;

use crate::api_error::ApiError;
use crate::domain::CommandModel;
use crate::domain::CreateOrderCommand;
use crate::domain::FlashSale;
use crate::domain::Order;
use crate::domain::OrderModel;
use crate::domain::OrderStatus;
use crate::domain::SaleModel;
use crate::dtos::PurchaseRequest;
use crate::dtos::PurchaseResponse;
use crate::errors::AppError;
use crate::errors::DomainError;
use crate::errors::RepoError;
use crate::errors::ServiceError;

verus! {

/// Quantity `o` contributes to the confirmed total of sale `sale_id`.
pub open spec fn order_contribution(o: OrderModel, sale_id: u128) -> int {
    if o.flash_sale_id == sale_id && o.status == OrderStatus::Confirmed {
        o.quantity
    } else {
        0
    }
}

/// Total quantity of confirmed orders of sale `sale_id`.
pub open spec fn confirmed_total(orders: Seq<OrderModel>, sale_id: u128) -> int
    decreases orders.len(),
{
    if orders.len() == 0 {
        0
    } else {
        confirmed_total(orders.drop_last(), sale_id) + order_contribution(orders.last(), sale_id)
    }
}

/// Appending one order adds exactly its contribution to every sale's
/// confirmed total.
pub proof fn lemma_confirmed_total_push(orders: Seq<OrderModel>, o: OrderModel, sale_id: u128)
    ensures
        confirmed_total(orders.push(o), sale_id) == confirmed_total(orders, sale_id)
            + order_contribution(o, sale_id),
{
    assert(orders.push(o).drop_last() =~= orders);
    assert(orders.push(o).last() == o);
}

/// A sale id that no order references has confirmed total zero.
pub proof fn lemma_unreferenced_sale_total_zero(orders: Seq<OrderModel>, sale_id: u128)
    requires
        forall|j: int| 0 <= j < orders.len() ==> (#[trigger] orders[j]).flash_sale_id != sale_id,
    ensures
        confirmed_total(orders, sale_id) == 0,
    decreases orders.len(),
{
    if orders.len() > 0 {
        lemma_unreferenced_sale_total_zero(orders.drop_last(), sale_id);
    }
}

/// Mathematical image of the two tables the fulfillment transaction
/// touches.
pub struct DbView {
    pub sales: Seq<SaleModel>,
    pub orders: Seq<OrderModel>,
}

impl DbView {
    /// Every stored sale satisfies its own invariant.
    pub open spec fn sales_wf(self) -> bool {
        forall|i: int| 0 <= i < self.sales.len() ==> (#[trigger] self.sales[i]).wf()
    }

    /// Sale ids are unique.
    pub open spec fn sales_unique(self) -> bool {
        forall|i: int, j: int|
            0 <= i < j < self.sales.len() ==> (#[trigger] self.sales[i]).id != (
            #[trigger] self.sales[j]).id
    }

    /// Every stored order satisfies its own invariant.
    pub open spec fn orders_wf(self) -> bool {
        forall|i: int| 0 <= i < self.orders.len() ==> (#[trigger] self.orders[i]).wf()
    }

    /// At most one order exists per idempotency key.
    pub open spec fn keys_unique(self) -> bool {
        forall|i: int, j: int|
            0 <= i < j < self.orders.len() ==> (#[trigger] self.orders[i]).idempotency_key != (
            #[trigger] self.orders[j]).idempotency_key
    }

    /// Every order references a stored sale.
    pub open spec fn orders_reference_sales(self) -> bool {
        forall|j: int|
            0 <= j < self.orders.len() ==> self.has_sale(
                (#[trigger] self.orders[j]).flash_sale_id,
            )
    }

    /// For every sale, the confirmed quantities equal the inventory
    /// debited from it.
    pub open spec fn conserved(self) -> bool {
        forall|i: int|
            0 <= i < self.sales.len() ==> confirmed_total(
                self.orders,
                (#[trigger] self.sales[i]).id,
            ) == self.sales[i].total_inventory - self.sales[i].remaining_inventory
    }

    /// Invariant of the stored state.
    pub open spec fn wf(self) -> bool {
        &&& self.sales_wf()
        &&& self.sales_unique()
        &&& self.orders_wf()
        &&& self.keys_unique()
        &&& self.orders_reference_sales()
        &&& self.conserved()
    }

    /// Some order carries idempotency key `key`.
    pub open spec fn key_present(self, key: Seq<char>) -> bool {
        exists|i: int|
            0 <= i < self.orders.len() && (#[trigger] self.orders[i]).idempotency_key == key
    }

    /// Index of the order carrying `key` (unique when `keys_unique`).
    pub open spec fn order_index_of_key(self, key: Seq<char>) -> int {
        choose|i: int|
            0 <= i < self.orders.len() && (#[trigger] self.orders[i]).idempotency_key == key
    }

    /// Some sale carries id `sale_id`.
    pub open spec fn has_sale(self, sale_id: u128) -> bool {
        exists|i: int| 0 <= i < self.sales.len() && (#[trigger] self.sales[i]).id == sale_id
    }

    /// Index of the sale carrying `sale_id` (unique when `sales_unique`).
    pub open spec fn sale_index_of(self, sale_id: u128) -> int {
        choose|i: int| 0 <= i < self.sales.len() && (#[trigger] self.sales[i]).id == sale_id
    }
}

/// An index witnessing an idempotency key is the index the view names,
/// as long as keys are unique.
pub proof fn lemma_key_index_pinned(db: DbView, key: Seq<char>, i: int)
    requires
        db.keys_unique(),
        0 <= i < db.orders.len(),
        db.orders[i].idempotency_key == key,
    ensures
        db.key_present(key),
        db.order_index_of_key(key) == i,
{
    assert(db.key_present(key));
    let c = db.order_index_of_key(key);
    if c < i {
        assert(db.orders[c].idempotency_key != db.orders[i].idempotency_key);
    } else if i < c {
        assert(db.orders[i].idempotency_key != db.orders[c].idempotency_key);
    }
}

/// An index witnessing a sale id is the index the view names, as long
/// as sale ids are unique.
pub proof fn lemma_sale_index_pinned(db: DbView, sale_id: u128, i: int)
    requires
        db.sales_unique(),
        0 <= i < db.sales.len(),
        db.sales[i].id == sale_id,
    ensures
        db.has_sale(sale_id),
        db.sale_index_of(sale_id) == i,
{
    assert(db.has_sale(sale_id));
    let c = db.sale_index_of(sale_id);
    if c < i {
        assert(db.sales[c].id != db.sales[i].id);
    } else if i < c {
        assert(db.sales[i].id != db.sales[c].id);
    }
}

/// The sale `s` after debiting `quantity` units.
pub open spec fn debited(s: SaleModel, quantity: int) -> SaleModel {
    SaleModel { remaining_inventory: s.remaining_inventory - quantity, ..s }
}

/// The confirmed order that fulfilling `cmd` at `now` persists.
pub open spec fn placed_order(cmd: CommandModel, now: int) -> OrderModel {
    OrderModel {
        id: cmd.order_id,
        user_id: cmd.user_id,
        flash_sale_id: cmd.flash_sale_id,
        quantity: cmd.quantity,
        status: OrderStatus::Confirmed,
        idempotency_key: cmd.idempotency_key,
        created_at: now,
    }
}

/// Outcome of one fulfillment attempt.
pub enum FulfillStep {
    /// A prior attempt with the same key already committed; its order is
    /// returned and nothing changes.
    Existing { order: OrderModel },
    /// No sale carries the command's sale id.
    SaleMissing,
    /// The sale's time window does not contain `now`.
    NotActive,
    /// Less inventory remains than the command asks for.
    SoldOut,
    /// The order was placed: inventory debited, order persisted.
    Placed { order: OrderModel, next: DbView },
}

/// The fulfillment transaction as a function of the stored state: the
/// idempotent short-circuit first, then sale lookup, temporal check,
/// inventory check, and finally debit plus insert.
pub open spec fn spec_fulfill(db: DbView, cmd: CommandModel, now: int) -> FulfillStep {
    if db.key_present(cmd.idempotency_key) {
        FulfillStep::Existing { order: db.orders[db.order_index_of_key(cmd.idempotency_key)] }
    } else if !db.has_sale(cmd.flash_sale_id) {
        FulfillStep::SaleMissing
    } else {
        let i = db.sale_index_of(cmd.flash_sale_id);
        let s = db.sales[i];
        if !s.active_at(now) {
            FulfillStep::NotActive
        } else if s.remaining_inventory < cmd.quantity {
            FulfillStep::SoldOut
        } else {
            let o = placed_order(cmd, now);
            FulfillStep::Placed {
                order: o,
                next: DbView {
                    sales: db.sales.update(i, debited(s, cmd.quantity)),
                    orders: db.orders.push(o),
                },
            }
        }
    }
}

/// The stored state after one fulfillment attempt.
pub open spec fn spec_fulfill_next(db: DbView, cmd: CommandModel, now: int) -> DbView {
    match spec_fulfill(db, cmd, now) {
        FulfillStep::Placed { next, .. } => next,
        _ => db,
    }
}

/// Placing one confirmed order inside a sale's remaining inventory
/// preserves the stored-state invariant.
pub proof fn lemma_placed_preserves_wf(db: DbView, order: OrderModel)
    requires
        db.wf(),
        db.has_sale(order.flash_sale_id),
        !db.key_present(order.idempotency_key),
        order.quantity > 0,
        order.status == OrderStatus::Confirmed,
        order.quantity <= db.sales[db.sale_index_of(order.flash_sale_id)].remaining_inventory,
    ensures
        (DbView {
            sales: db.sales.update(
                db.sale_index_of(order.flash_sale_id),
                debited(db.sales[db.sale_index_of(order.flash_sale_id)], order.quantity),
            ),
            orders: db.orders.push(order),
        }).wf(),
{
    let i = db.sale_index_of(order.flash_sale_id);
    let s = db.sales[i];
    let next = DbView {
        sales: db.sales.update(i, debited(s, order.quantity)),
        orders: db.orders.push(order),
    };
    {
        assert(0 <= i < db.sales.len() && s.id == order.flash_sale_id);
        assert forall|k: int| 0 <= k < next.sales.len() implies (#[trigger] next.sales[k]).wf() by {
            assert(db.sales[k].wf());
        }
        assert forall|k: int, l: int| 0 <= k < l < next.sales.len() implies (
        #[trigger] next.sales[k]).id != (#[trigger] next.sales[l]).id by {
            assert(db.sales[k].id != db.sales[l].id);
        }
        assert forall|k: int| 0 <= k < next.orders.len() implies (
        #[trigger] next.orders[k]).wf() by {
            if k < db.orders.len() {
                assert(db.orders[k].wf());
            }
        }
        assert forall|k: int, l: int| 0 <= k < l < next.orders.len() implies (
        #[trigger] next.orders[k]).idempotency_key != (
        #[trigger] next.orders[l]).idempotency_key by {
            if l < db.orders.len() {
                assert(db.orders[k].idempotency_key != db.orders[l].idempotency_key);
            } else {
                assert(next.orders[l] == order);
                assert(!db.key_present(order.idempotency_key));
                assert(db.orders[k].idempotency_key != order.idempotency_key);
            }
        }
        assert forall|k: int| 0 <= k < next.orders.len() implies next.has_sale(
            (#[trigger] next.orders[k]).flash_sale_id,
        ) by {
            if k < db.orders.len() {
                assert(db.has_sale(db.orders[k].flash_sale_id));
                let w = choose|w: int|
                    0 <= w < db.sales.len() && (#[trigger] db.sales[w]).id
                        == db.orders[k].flash_sale_id;
                assert(next.sales[w].id == db.sales[w].id);
            } else {
                assert(next.orders[k] == order);
                assert(next.sales[i].id == order.flash_sale_id);
            }
        }
        assert forall|k: int| 0 <= k < next.sales.len() implies confirmed_total(
            next.orders,
            (#[trigger] next.sales[k]).id,
        ) == next.sales[k].total_inventory - next.sales[k].remaining_inventory by {
            lemma_confirmed_total_push(db.orders, order, next.sales[k].id);
            if k == i {
                assert(next.sales[k] == debited(s, order.quantity));
                assert(order_contribution(order, s.id) == order.quantity);
                assert(confirmed_total(db.orders, s.id) == s.total_inventory
                    - s.remaining_inventory);
            } else {
                assert(next.sales[k] == db.sales[k]);
                assert(db.sales[k].id != s.id);
                assert(order_contribution(order, db.sales[k].id) == 0);
                assert(confirmed_total(db.orders, db.sales[k].id) == db.sales[k].total_inventory
                    - db.sales[k].remaining_inventory);
            }
        }
    }
}

/// One fulfillment attempt preserves the stored-state invariant.
pub proof fn lemma_fulfill_preserves_wf(db: DbView, cmd: CommandModel, now: int)
    requires
        db.wf(),
        cmd.quantity > 0,
    ensures
        spec_fulfill_next(db, cmd, now).wf(),
{
    if let FulfillStep::Placed { order, next } = spec_fulfill(db, cmd, now) {
        lemma_placed_preserves_wf(db, placed_order(cmd, now));
    }
}

/// Repeating a fulfillment yields the same order and changes nothing
/// more: once a command's order is placed, or found already placed,
/// every later attempt with the same command returns that same order
/// and leaves the stored state as it is — inventory is debited at most
/// once per idempotency key, whatever instant the retry runs at.
pub proof fn lemma_fulfill_idempotent(db: DbView, cmd: CommandModel, now: int, later: int)
    requires
        db.wf(),
        cmd.quantity > 0,
    ensures
        match spec_fulfill(db, cmd, now) {
            FulfillStep::Placed { order, next } => spec_fulfill(next, cmd, later) == (
            FulfillStep::Existing { order }) && spec_fulfill_next(next, cmd, later) == next,
            FulfillStep::Existing { order } => spec_fulfill_next(db, cmd, now) == db
                && spec_fulfill(db, cmd, later) == (FulfillStep::Existing { order }),
            _ => spec_fulfill_next(db, cmd, now) == db,
        },
{
    if let FulfillStep::Placed { order, next } = spec_fulfill(db, cmd, now) {
        lemma_fulfill_preserves_wf(db, cmd, now);
        let n = db.orders.len() as int;
        assert(next.orders[n] == order);
        lemma_key_index_pinned(next, cmd.idempotency_key, n);
    }
}

/// The state after fulfilling a sequence of commands in order.
pub open spec fn run_fulfillments(db: DbView, cmds: Seq<CommandModel>, now: int) -> DbView
    decreases cmds.len(),
{
    if cmds.len() == 0 {
        db
    } else {
        run_fulfillments(
            spec_fulfill_next(db, cmds[0], now),
            cmds.subrange(1, cmds.len() as int),
            now,
        )
    }
}

/// How many of the commands, fulfilled in order, place an order.
pub open spec fn placed_count(db: DbView, cmds: Seq<CommandModel>, now: int) -> int
    decreases cmds.len(),
{
    if cmds.len() == 0 {
        0
    } else {
        (if spec_fulfill(db, cmds[0], now) matches FulfillStep::Placed { .. } {
            1int
        } else {
            0int
        }) + placed_count(
            spec_fulfill_next(db, cmds[0], now),
            cmds.subrange(1, cmds.len() as int),
            now,
        )
    }
}

/// How many of the commands, fulfilled in order, are refused because
/// less inventory remains than they ask for.
pub open spec fn sold_out_count(db: DbView, cmds: Seq<CommandModel>, now: int) -> int
    decreases cmds.len(),
{
    if cmds.len() == 0 {
        0
    } else {
        (if (spec_fulfill(db, cmds[0], now) matches FulfillStep::SoldOut) {
            1int
        } else {
            0int
        }) + sold_out_count(
            spec_fulfill_next(db, cmds[0], now),
            cmds.subrange(1, cmds.len() as int),
            now,
        )
    }
}

/// Bounded inventory is sold exactly: fulfilling a sequence of
/// single-unit commands with fresh, pairwise distinct idempotency keys
/// against one active sale with `R` units remaining places exactly
/// `min(N, R)` orders out of `N`, refuses the other `N − min(N, R)` as
/// sold out, and leaves `max(R − N, 0)` units remaining.
pub proof fn lemma_capacity(db: DbView, cmds: Seq<CommandModel>, sale_id: u128, now: int)
    requires
        db.wf(),
        db.has_sale(sale_id),
        db.sales[db.sale_index_of(sale_id)].active_at(now),
        forall|k: int| 0 <= k < cmds.len() ==> (#[trigger] cmds[k]).flash_sale_id == sale_id,
        forall|k: int| 0 <= k < cmds.len() ==> (#[trigger] cmds[k]).quantity == 1,
        forall|k: int|
            0 <= k < cmds.len() ==> !db.key_present((#[trigger] cmds[k]).idempotency_key),
        forall|k: int, l: int|
            0 <= k < l < cmds.len() ==> (#[trigger] cmds[k]).idempotency_key != (
            #[trigger] cmds[l]).idempotency_key,
    ensures
        ({
            let done = run_fulfillments(db, cmds, now);
            let before = db.sales[db.sale_index_of(sale_id)].remaining_inventory;
            &&& placed_count(db, cmds, now) == (if cmds.len() <= before {
                cmds.len() as int
            } else {
                before
            })
            &&& placed_count(db, cmds, now) + sold_out_count(db, cmds, now) == cmds.len()
            &&& done.wf()
            &&& done.has_sale(sale_id)
            &&& done.sales[done.sale_index_of(sale_id)].remaining_inventory == (if before
                - cmds.len() >= 0 {
                before - cmds.len()
            } else {
                0
            })
        }),
    decreases cmds.len(),
{
    let i = db.sale_index_of(sale_id);
    let s = db.sales[i];
    assert(0 <= i < db.sales.len() && s.id == sale_id);
    assert(s.wf());
    if cmds.len() > 0 {
        let cmd0 = cmds[0];
        let rest = cmds.subrange(1, cmds.len() as int);
        assert(cmd0.flash_sale_id == sale_id);
        assert(cmd0.quantity == 1);
        assert(!db.key_present(cmd0.idempotency_key));
        let db1 = spec_fulfill_next(db, cmd0, now);
        lemma_fulfill_preserves_wf(db, cmd0, now);
        assert forall|k: int| 0 <= k < rest.len() implies (#[trigger] rest[k]).flash_sale_id
            == sale_id && rest[k].quantity == 1 by {
            assert(rest[k] == cmds[k + 1]);
        }
        assert forall|k: int, l: int| 0 <= k < l < rest.len() implies (
        #[trigger] rest[k]).idempotency_key != (#[trigger] rest[l]).idempotency_key by {
            assert(rest[k] == cmds[k + 1]);
            assert(rest[l] == cmds[l + 1]);
        }
        if s.remaining_inventory >= 1 {
            let order = placed_order(cmd0, now);
            assert(db1.sales == db.sales.update(i, debited(s, 1)));
            assert(db1.orders == db.orders.push(order));
            lemma_sale_index_pinned(db1, sale_id, i);
            assert(db1.sales[i].active_at(now));
            assert forall|k: int| 0 <= k < rest.len() implies !db1.key_present(
                (#[trigger] rest[k]).idempotency_key,
            ) by {
                assert(rest[k] == cmds[k + 1]);
                assert(cmds[0].idempotency_key != cmds[k + 1].idempotency_key);
                assert(!db.key_present(cmds[k + 1].idempotency_key));
                if db1.key_present(rest[k].idempotency_key) {
                    let w = choose|w: int|
                        0 <= w < db1.orders.len() && (#[trigger] db1.orders[w]).idempotency_key
                            == rest[k].idempotency_key;
                    if w < db.orders.len() {
                        assert(db.orders[w].idempotency_key == rest[k].idempotency_key);
                    } else {
                        assert(db1.orders[w] == order);
                    }
                }
            }
            lemma_capacity(db1, rest, sale_id, now);
        } else {
            assert(s.remaining_inventory == 0);
            assert(db1 == db);
            assert forall|k: int| 0 <= k < rest.len() implies !db1.key_present(
                (#[trigger] rest[k]).idempotency_key,
            ) by {
                assert(rest[k] == cmds[k + 1]);
            }
            lemma_capacity(db1, rest, sale_id, now);
        }
    }
}

/// In-memory image of the flash-sale and order tables.
pub struct Database {
    pub sales: Vec<FlashSale>,
    pub orders: Vec<Order>,
}

impl View for Database {
    type V = DbView;

    open spec fn view(&self) -> DbView {
        DbView {
            sales: self.sales@.map_values(|s: FlashSale| s@),
            orders: self.orders@.map_values(|o: Order| o@),
        }
    }
}

impl Database {
    /// An empty image: no sales, no orders.
    pub fn new() -> (db: Database)
        ensures
            db@.wf(),
            db@.sales.len() == 0,
            db@.orders.len() == 0,
    {
        Database { sales: Vec::new(), orders: Vec::new() }
    }

    /// Stores a new sale with its full inventory still remaining, as the
    /// administrative path that creates sales does.
    pub fn add_sale(&mut self, sale: FlashSale)
        requires
            old(self)@.wf(),
            sale@.wf(),
            sale@.remaining_inventory == sale@.total_inventory,
            !old(self)@.has_sale(sale@.id),
        ensures
            final(self)@.wf(),
            final(self)@.sales == old(self)@.sales.push(sale@),
            final(self)@.orders == old(self)@.orders,
    {
        self.sales.push(sale);
        proof {
            let prior = old(self)@;
            assert(self@.sales =~= prior.sales.push(sale@));
            assert(self@.orders =~= prior.orders);
            let new = self@;
            assert forall|k: int| 0 <= k < new.orders.len() implies new.has_sale(
                (#[trigger] new.orders[k]).flash_sale_id,
            ) by {
                assert(prior.has_sale(prior.orders[k].flash_sale_id));
                let w = choose|w: int|
                    0 <= w < prior.sales.len() && (#[trigger] prior.sales[w]).id
                        == prior.orders[k].flash_sale_id;
                assert(new.sales[w].id == prior.orders[k].flash_sale_id);
            }
            assert forall|k: int| 0 <= k < new.sales.len() implies confirmed_total(
                new.orders,
                (#[trigger] new.sales[k]).id,
            ) == new.sales[k].total_inventory - new.sales[k].remaining_inventory by {
                if k < prior.sales.len() {
                    assert(new.sales[k] == prior.sales[k]);
                    assert(confirmed_total(prior.orders, prior.sales[k].id)
                        == prior.sales[k].total_inventory - prior.sales[k].remaining_inventory);
                } else {
                    assert(new.sales[k] == sale@);
                    assert forall|j: int| 0 <= j < new.orders.len() implies (
                    #[trigger] new.orders[j]).flash_sale_id != sale@.id by {
                        if new.orders[j].flash_sale_id == sale@.id {
                            assert(prior.has_sale(sale@.id));
                        }
                    }
                    lemma_unreferenced_sale_total_zero(new.orders, sale@.id);
                }
            }
        }
    }

    /// Looks an order up by idempotency key, as the order repository's
    /// `find_by_idempotency_key` does.  Returns the unique order with
    /// that key, or nothing exactly when no order carries it.
    pub fn find_by_idempotency_key(&self, key: &String) -> (r: Option<Order>)
        requires
            self@.keys_unique(),
        ensures
            r is Some <==> self@.key_present(key@),
            r matches Some(o) ==> o@ == self@.orders[self@.order_index_of_key(key@)],
    {
        let n: usize = self.orders.len();
        let mut i: usize = 0;
        while i < n
            invariant
                n == self.orders.len(),
                0 <= i <= n,
                self@.keys_unique(),
                forall|j: int| 0 <= j < i ==> (#[trigger] self@.orders[j]).idempotency_key != key@,
            decreases n - i,
        {
            if self.orders[i].idempotency_key == *key {
                proof {
                    lemma_key_index_pinned(self@, key@, i as int);
                }
                return Some(self.orders[i].clone());
            }
            i = i + 1;
        }
        proof {
            if self@.key_present(key@) {
                let w = choose|j: int|
                    0 <= j < self@.orders.len() && (#[trigger] self@.orders[j]).idempotency_key
                        == key@;
                assert(self@.orders[w].idempotency_key != key@);
            }
        }
        None
    }

    /// Index of the sale with id `sale_id`, or nothing exactly when no
    /// sale carries it.
    pub fn find_sale_index(&self, sale_id: u128) -> (r: Option<usize>)
        requires
            self@.sales_unique(),
        ensures
            r is Some <==> self@.has_sale(sale_id),
            r matches Some(i) ==> 0 <= i < self@.sales.len() && i == self@.sale_index_of(sale_id)
                && self@.sales[i as int].id == sale_id,
    {
        let n: usize = self.sales.len();
        let mut i: usize = 0;
        while i < n
            invariant
                n == self.sales.len(),
                0 <= i <= n,
                self@.sales_unique(),
                forall|j: int| 0 <= j < i ==> (#[trigger] self@.sales[j]).id != sale_id,
            decreases n - i,
        {
            if self.sales[i].id == sale_id {
                proof {
                    lemma_sale_index_pinned(self@, sale_id, i as int);
                }
                return Some(i);
            }
            i = i + 1;
        }
        proof {
            if self@.has_sale(sale_id) {
                let w = choose|j: int|
                    0 <= j < self@.sales.len() && (#[trigger] self@.sales[j]).id == sale_id;
                assert(self@.sales[w].id != sale_id);
            }
        }
        None
    }
}

/// Checks a locked sale against a requested quantity at `now`: the
/// temporal rule first, then the inventory rule, and on success the
/// sale with the quantity debited.
pub fn evaluate_sale(sale: &FlashSale, quantity: i32, now: i64) -> (r: Result<FlashSale, AppError>)
    requires
        sale@.wf(),
        quantity > 0,
    ensures
        !sale@.active_at(now as int) ==> (r matches Err(e) && e matches AppError::Service(
            ServiceError::BusinessRule(m),
        ) && m@ == "flash sale is not active"@),
        sale@.active_at(now as int) && sale@.remaining_inventory < quantity ==> (r matches Err(e)
            && e matches AppError::Service(ServiceError::Conflict(m)) && m@ == "sold out"@),
        sale@.active_at(now as int) && sale@.remaining_inventory >= quantity ==> (r matches Ok(s)
            && s@ == debited(sale@, quantity as int)),
{
    if !sale.is_active(now) {
        return Err(
            AppError::Service(
                ServiceError::BusinessRule(String::from_str("flash sale is not active")),
            ),
        );
    }
    if sale.remaining_inventory < quantity {
        return Err(AppError::Service(ServiceError::Conflict(String::from_str("sold out"))));
    }
    Ok(
        FlashSale {
            remaining_inventory: sale.remaining_inventory - quantity,
            ..*sale
        },
    )
}

/// The confirmed order row that fulfilling `command` at `now` persists:
/// exactly the model's [`placed_order`], so a runtime that inserts this
/// row inserts what the verified transaction says it inserts.
pub fn confirmed_order(command: &CreateOrderCommand, now: i64) -> (o: Order)
    ensures
        o@ == placed_order(command@, now as int),
{
    Order {
        id: command.order_id,
        user_id: command.user_id,
        flash_sale_id: command.flash_sale_id,
        quantity: command.quantity,
        status: OrderStatus::Confirmed,
        idempotency_key: command.idempotency_key.clone(),
        created_at: now,
    }
}

/// The fulfillment transaction.  Within what models one database
/// transaction under the sale's row lock: return the existing order of
/// the command's idempotency key untouched if one is stored; otherwise
/// look the sale up, check the temporal and inventory rules, debit the
/// inventory and persist the confirmed order — or fail and change
/// nothing.  The outcome is exactly [`spec_fulfill`] of the prior state.
pub fn create_order(db: &mut Database, command: &CreateOrderCommand, now: i64) -> (r: Result<
    Order,
    AppError,
>)
    requires
        old(db)@.wf(),
        command@.quantity > 0,
    ensures
        final(db)@.wf(),
        final(db)@ == spec_fulfill_next(old(db)@, command@, now as int),
        match spec_fulfill(old(db)@, command@, now as int) {
            FulfillStep::Existing { order } => r matches Ok(o) && o@ == order,
            FulfillStep::SaleMissing => r matches Err(e) && (e matches AppError::Repo(
                RepoError::NotFound { entity_type },
            ) && entity_type@ == "FlashSale"@),
            FulfillStep::NotActive => r matches Err(e) && (e matches AppError::Service(
                ServiceError::BusinessRule(m),
            ) && m@ == "flash sale is not active"@),
            FulfillStep::SoldOut => r matches Err(e) && (e matches AppError::Service(
                ServiceError::Conflict(m),
            ) && m@ == "sold out"@),
            FulfillStep::Placed { order, .. } => r matches Ok(o) && o@ == order,
        },
{
    if let Some(existing) = db.find_by_idempotency_key(&command.idempotency_key) {
        return Ok(existing);
    }
    let idx: usize = match db.find_sale_index(command.flash_sale_id) {
        Some(i) => i,
        None => {
            return Err(
                AppError::Repo(RepoError::NotFound { entity_type: String::from_str("FlashSale") }),
            );
        },
    };
    let sale: FlashSale = db.sales[idx];
    let updated: FlashSale = match evaluate_sale(&sale, command.quantity, now) {
        Ok(u) => u,
        Err(e) => {
            return Err(e);
        },
    };
    db.sales.set(idx, updated);
    let order = confirmed_order(command, now);
    let placed = order.clone();
    db.orders.push(order);
    proof {
        let prior = old(db)@;
        let i = prior.sale_index_of(command@.flash_sale_id);
        assert(i == idx as int);
        assert(placed@ == placed_order(command@, now as int));
        assert(db@.sales =~= prior.sales.update(i, debited(prior.sales[i], command@.quantity)));
        assert(db@.orders =~= prior.orders.push(placed_order(command@, now as int)));
        lemma_placed_preserves_wf(prior, placed_order(command@, now as int));
    }
    Ok(placed)
}

/// The confirmed order a successful purchase persists.
pub open spec fn purchased_order(
    request: PurchaseRequest,
    user_id: u128,
    order_id: u128,
    idempotency_key: Seq<char>,
    now: int,
) -> OrderModel {
    OrderModel {
        id: order_id,
        user_id,
        flash_sale_id: request.flash_sale_id,
        quantity: request.quantity as int,
        status: OrderStatus::Confirmed,
        idempotency_key,
        created_at: now,
    }
}

/// The synchronous purchase: looks the sale up, checks the inventory,
/// debits it and persists a confirmed order, all modelling one database
/// transaction.  Unlike the asynchronous fulfillment it applies no
/// temporal rule and no idempotent short-circuit; a reused idempotency
/// key is rejected as the unique constraint would reject it.  The ids
/// and the key of the new order are the caller's to draw.
pub fn create_purchase(
    db: &mut Database,
    request: &PurchaseRequest,
    user_id: u128,
    order_id: u128,
    idempotency_key: String,
    now: i64,
) -> (r: Result<PurchaseResponse, ApiError>)
    requires
        old(db)@.wf(),
    ensures
        final(db)@.wf(),
        ({
            let prior = old(db)@;
            let i = prior.sale_index_of(request.flash_sale_id);
            if !prior.has_sale(request.flash_sale_id) {
                &&& r matches Err(e) && e.status == 404 && e.code@ == "NOT_FOUND"@ && e.message@
                    == "flash sale not found"@
                &&& final(db)@ == prior
            } else if prior.sales[i].remaining_inventory < request.quantity {
                &&& r matches Err(e) && e.status == 409 && e.code@ == "CONFLICT"@ && e.message@
                    == "sold out"@
                &&& final(db)@ == prior
            } else if request.quantity <= 0 {
                &&& r matches Err(e) && e.status == 400 && e.code@ == "INVALID_ORDER_QUANTITY"@
                &&& final(db)@ == prior
            } else if prior.key_present(idempotency_key@) {
                &&& r matches Err(e) && e.status == 409 && e.code@ == "CONFLICT"@
                &&& final(db)@ == prior
            } else {
                &&& r matches Ok(resp) && resp.order_id == order_id && resp.status@
                    == "CONFIRMED"@
                &&& final(db)@.sales == prior.sales.update(
                    i,
                    debited(prior.sales[i], request.quantity as int),
                )
                &&& final(db)@.orders == prior.orders.push(
                    purchased_order(*request, user_id, order_id, idempotency_key@, now as int),
                )
            }
        }),
{
    let idx: usize = match db.find_sale_index(request.flash_sale_id) {
        Some(i) => i,
        None => {
            return Err(
                ApiError {
                    status: 404,
                    code: String::from_str("NOT_FOUND"),
                    message: String::from_str("flash sale not found"),
                },
            );
        },
    };
    let sale: FlashSale = db.sales[idx];
    if sale.remaining_inventory < request.quantity {
        return Err(
            ApiError {
                status: 409,
                code: String::from_str("CONFLICT"),
                message: String::from_str("sold out"),
            },
        );
    }
    if request.quantity <= 0 {
        return Err(ApiError::from_app(AppError::Domain(DomainError::InvalidOrderQuantity)));
    }
    if db.find_by_idempotency_key(&idempotency_key).is_some() {
        return Err(
            ApiError::from_app(
                AppError::Repo(
                    RepoError::Conflict {
                        constraint: String::from_str("orders_idempotency_key_key"),
                    },
                ),
            ),
        );
    }
    let updated = FlashSale { remaining_inventory: sale.remaining_inventory - request.quantity, ..sale };
    db.sales.set(idx, updated);
    let order = Order {
        id: order_id,
        user_id,
        flash_sale_id: request.flash_sale_id,
        quantity: request.quantity,
        status: OrderStatus::Confirmed,
        idempotency_key,
        created_at: now,
    };
    db.orders.push(order);
    proof {
        let prior = old(db)@;
        let i = prior.sale_index_of(request.flash_sale_id);
        let om = purchased_order(*request, user_id, order_id, idempotency_key@, now as int);
        assert(db@.sales =~= prior.sales.update(i, debited(prior.sales[i], request.quantity as int)));
        assert(db@.orders =~= prior.orders.push(om));
        lemma_placed_preserves_wf(prior, om);
    }
    Ok(PurchaseResponse { order_id, status: String::from_str("CONFIRMED") })
}

} // verus!
