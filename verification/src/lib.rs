//! Flash-sale order intake and fulfillment core.
//!
//! The crate verifies the order admission and fulfillment pipeline of a
//! flash-sale service: validation and idempotent admission of order
//! requests, the bounded work queue hand-off, the status store that tracks
//! each admitted order, the inventory-debiting fulfillment transaction,
//! and the error taxonomy with its HTTP mapping.

pub mod api_error;
pub mod domain;
pub mod dtos;
pub mod error_mapper;
pub mod errors;
pub mod fulfillment;
pub mod idempotency;
pub mod order_handler;
pub mod product;
pub mod queue;
pub mod rate_limit;
pub mod repos;
pub mod status_store;
pub mod user;
pub mod worker;

pub use domain::FlashSale;
pub use domain::Order;
pub use domain::OrderStatus;
