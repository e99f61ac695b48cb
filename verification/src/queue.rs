//! The bounded work queue's producer side: reserve a slot first, then
//! send, so that admission can answer "service unavailable" before it
//! publishes anything, and a reserved slot can never be lost between
//! the status-store insert and the send.
//!
//! The channel is tokio's bounded mpsc channel; the worker's receiving
//! half is driven by the runtime around the library.

use vstd::prelude::*;

use crate::domain::CreateOrderCommand;

verus! {

/// An admitted order on its way to the queue worker.
#[derive(Debug)]
pub struct OrderQueueMessage {
    pub order_id: u128,
    pub command: CreateOrderCommand,
}

#[verifier::external_type_specification]
#[verifier::external_body]
#[verifier::reject_recursive_types(T)]
pub struct ExSender<T>(tokio::sync::mpsc::Sender<T>);

#[verifier::external_type_specification]
#[verifier::external_body]
#[verifier::reject_recursive_types(T)]
pub struct ExOwnedPermit<T>(tokio::sync::mpsc::OwnedPermit<T>);

/// Relies on `tokio::sync::mpsc::Sender::try_reserve_owned` (on a clone
/// of the sender): returns a permit exactly when the channel had a free
/// slot to reserve; the permit owns that slot until it sends or drops.
/// Whether a slot is free depends on concurrent producers and the
/// consumer, so no single outcome is promised.
#[verifier::external_body]
pub fn try_reserve_slot(queue_tx: &tokio::sync::mpsc::Sender<OrderQueueMessage>) -> (permit:
    Option<tokio::sync::mpsc::OwnedPermit<OrderQueueMessage>>)
{
    queue_tx.clone().try_reserve_owned().ok()
}

/// Relies on `tokio::sync::mpsc::OwnedPermit::send`: publishes the
/// message on the slot the permit reserved; it cannot fail and cannot
/// block.
#[verifier::external_body]
pub fn send_reserved(
    permit: tokio::sync::mpsc::OwnedPermit<OrderQueueMessage>,
    message: OrderQueueMessage,
) {
    let _ = permit.send(message);
}

} // verus!
