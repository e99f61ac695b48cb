//! Domain entities of the flash-sale service: sales, orders and the
//! commands that create them.
//!
//! Identifiers are UUIDs carried as their 128-bit values; instants are
//! carried as signed timestamps (seconds since the epoch), so that the
//! temporal rules can be stated and proved arithmetically.

use vstd::prelude::*;

verus! {

/// Processing state of an order, `PENDING`, `CONFIRMED` or `FAILED`.
#[derive(Clone, Copy, Debug, PartialEq, Eq, Structural)]
pub enum OrderStatus {
    Pending,
    Confirmed,
    Failed,
}

/// A time-bounded offering of a fixed inventory of one product.
#[derive(Clone, Copy, Debug)]
pub struct FlashSale {
    pub id: u128,
    pub product_id: u128,
    pub start_time: i64,
    pub end_time: i64,
    pub total_inventory: i32,
    pub remaining_inventory: i32,
    pub per_user_limit: i32,
    pub created_at: i64,
}

/// Mathematical image of a [`FlashSale`].
pub struct SaleModel {
    pub id: u128,
    pub product_id: u128,
    pub start_time: int,
    pub end_time: int,
    pub total_inventory: int,
    pub remaining_inventory: int,
    pub per_user_limit: int,
    pub created_at: int,
}

impl View for FlashSale {
    type V = SaleModel;

    open spec fn view(&self) -> SaleModel {
        SaleModel {
            id: self.id,
            product_id: self.product_id,
            start_time: self.start_time as int,
            end_time: self.end_time as int,
            total_inventory: self.total_inventory as int,
            remaining_inventory: self.remaining_inventory as int,
            per_user_limit: self.per_user_limit as int,
            created_at: self.created_at as int,
        }
    }
}

impl SaleModel {
    /// Invariant of a stored sale: inventory within bounds and a
    /// non-empty time window.
    pub open spec fn wf(self) -> bool {
        &&& 0 <= self.remaining_inventory <= self.total_inventory
        &&& self.start_time < self.end_time
    }

    /// The sale accepts orders at `now`.
    pub open spec fn active_at(self, now: int) -> bool {
        self.start_time <= now <= self.end_time
    }
}

impl FlashSale {
    /// The sale accepts orders at `now`: the instant lies inside the
    /// sale's time window (both bounds included).
    pub fn is_active(&self, now: i64) -> (r: bool)
        ensures
            r == self@.active_at(now as int),
    {
        self.start_time <= now && now <= self.end_time
    }

    /// No inventory is left.
    pub fn is_sold_out(&self) -> (r: bool)
        ensures
            r == (self@.remaining_inventory <= 0),
    {
        self.remaining_inventory <= 0
    }
}

/// A persisted order.
#[derive(Debug)]
pub struct Order {
    pub id: u128,
    pub user_id: u128,
    pub flash_sale_id: u128,
    pub quantity: i32,
    pub status: OrderStatus,
    pub idempotency_key: String,
    pub created_at: i64,
}

/// Mathematical image of an [`Order`].
pub struct OrderModel {
    pub id: u128,
    pub user_id: u128,
    pub flash_sale_id: u128,
    pub quantity: int,
    pub status: OrderStatus,
    pub idempotency_key: Seq<char>,
    pub created_at: int,
}

impl View for Order {
    type V = OrderModel;

    open spec fn view(&self) -> OrderModel {
        OrderModel {
            id: self.id,
            user_id: self.user_id,
            flash_sale_id: self.flash_sale_id,
            quantity: self.quantity as int,
            status: self.status,
            idempotency_key: self.idempotency_key@,
            created_at: self.created_at as int,
        }
    }
}

impl OrderModel {
    /// Invariant of a stored order: a positive quantity.
    pub open spec fn wf(self) -> bool {
        self.quantity > 0
    }
}

impl Order {
    /// Builds a not-yet-fulfilled order.
    pub fn new(
        id: u128,
        user_id: u128,
        flash_sale_id: u128,
        quantity: i32,
        idempotency_key: String,
        created_at: i64,
    ) -> (o: Order)
        ensures
            o@ == (OrderModel {
                id,
                user_id,
                flash_sale_id,
                quantity: quantity as int,
                status: OrderStatus::Pending,
                idempotency_key: idempotency_key@,
                created_at: created_at as int,
            }),
    {
        Order {
            id,
            user_id,
            flash_sale_id,
            quantity,
            status: OrderStatus::Pending,
            idempotency_key,
            created_at,
        }
    }
}

impl Clone for Order {
    /// An order clones field by field.
    fn clone(&self) -> (res: Self)
        ensures
            res == *self,
    {
        Order {
            id: self.id,
            user_id: self.user_id,
            flash_sale_id: self.flash_sale_id,
            quantity: self.quantity,
            status: self.status,
            idempotency_key: self.idempotency_key.clone(),
            created_at: self.created_at,
        }
    }
}

/// Everything the fulfillment transaction needs to place one order.
/// Immutable once constructed.
#[derive(Debug)]
pub struct CreateOrderCommand {
    pub order_id: u128,
    pub user_id: u128,
    pub flash_sale_id: u128,
    pub quantity: i32,
    pub idempotency_key: String,
}

/// Mathematical image of a [`CreateOrderCommand`].
pub struct CommandModel {
    pub order_id: u128,
    pub user_id: u128,
    pub flash_sale_id: u128,
    pub quantity: int,
    pub idempotency_key: Seq<char>,
}

impl View for CreateOrderCommand {
    type V = CommandModel;

    open spec fn view(&self) -> CommandModel {
        CommandModel {
            order_id: self.order_id,
            user_id: self.user_id,
            flash_sale_id: self.flash_sale_id,
            quantity: self.quantity as int,
            idempotency_key: self.idempotency_key@,
        }
    }
}

impl Clone for CreateOrderCommand {
    /// A command clones field by field.
    fn clone(&self) -> (res: Self)
        ensures
            res == *self,
    {
        CreateOrderCommand {
            order_id: self.order_id,
            user_id: self.user_id,
            flash_sale_id: self.flash_sale_id,
            quantity: self.quantity,
            idempotency_key: self.idempotency_key.clone(),
        }
    }
}

/// Volatile processing state of an admitted order, kept in the status
/// store: inserted as `Pending` at admission and moved exactly once to a
/// terminal variant by the queue worker.
#[derive(Debug)]
pub enum OrderProcessingStatus {
    Pending,
    Completed(Order),
    Failed(String),
}

impl Clone for OrderProcessingStatus {
    /// A processing state clones variant by variant.
    fn clone(&self) -> (res: Self)
        ensures
            res == *self,
    {
        match self {
            OrderProcessingStatus::Pending => OrderProcessingStatus::Pending,
            OrderProcessingStatus::Completed(order) => {
                OrderProcessingStatus::Completed(order.clone())
            },
            OrderProcessingStatus::Failed(reason) => {
                OrderProcessingStatus::Failed(reason.clone())
            },
        }
    }
}

impl OrderProcessingStatus {
    /// `Completed` and `Failed` are terminal; `Pending` is not.
    pub open spec fn is_terminal(self) -> bool {
        !(self is Pending)
    }
}

} // verus!
