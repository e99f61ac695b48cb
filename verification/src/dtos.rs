//! Request and response bodies of the HTTP surface, as plain values.

use vstd::prelude::*;
use vstd::string::StringExecFns;

use crate::domain::Order;
use crate::domain::OrderStatus;

verus! {

/// Body of `POST /orders`.
#[derive(Clone, Copy, Debug)]
pub struct CreateOrderRequest {
    pub user_id: u128,
    pub flash_sale_id: u128,
    pub quantity: i32,
}

/// The persisted-status text of an order, as responses spell it.
pub open spec fn spec_status_text(s: OrderStatus) -> Seq<char> {
    match s {
        OrderStatus::Pending => "PENDING"@,
        OrderStatus::Confirmed => "CONFIRMED"@,
        OrderStatus::Failed => "FAILED"@,
    }
}

impl OrderStatus {
    /// The status text, upper-case as the persisted enum spells it.
    pub fn text(&self) -> (r: String)
        ensures
            r@ == spec_status_text(*self),
    {
        match self {
            OrderStatus::Pending => String::from_str("PENDING"),
            OrderStatus::Confirmed => String::from_str("CONFIRMED"),
            OrderStatus::Failed => String::from_str("FAILED"),
        }
    }
}

/// A fulfilled order as a response reports it.
#[derive(Clone, Debug)]
pub struct OrderResponse {
    pub order_id: u128,
    pub status: String,
}

impl OrderResponse {
    /// Reports an order: its id and its status text.
    pub fn from_order(order: &Order) -> (r: OrderResponse)
        ensures
            r.order_id == order.id,
            r.status@ == spec_status_text(order.status),
    {
        OrderResponse { order_id: order.id, status: order.status.text() }
    }
}

/// Response of a `POST /orders` accepted for asynchronous processing.
#[derive(Clone, Debug)]
pub struct OrderAcceptedResponse {
    pub order_id: u128,
    pub status: String,
    pub status_url: String,
}

/// Outcome part of a status-poll response.
#[derive(Clone, Debug)]
pub enum OrderResult {
    Success(OrderResponse),
    Error { message: String },
}

/// Response of `GET /orders/{id}/status`.
#[derive(Clone, Debug)]
pub struct OrderStatusResponse {
    pub order_id: u128,
    pub status: String,
    pub result: Option<OrderResult>,
}

/// Body of `POST /products`.
#[derive(Clone, Debug)]
pub struct CreateProductRequest {
    pub name: String,
}

/// Body of `POST /purchase`.
#[derive(Clone, Copy, Debug)]
pub struct PurchaseRequest {
    pub flash_sale_id: u128,
    pub quantity: i32,
}

/// Response of a synchronous purchase.
#[derive(Clone, Debug)]
pub struct PurchaseResponse {
    pub order_id: u128,
    pub status: String,
}

} // verus!
