//! The queue worker's decisions: what a fulfillment outcome means for
//! the status store, and when a failed attempt is retried.
//!
//! The worker's loop — receive, open a transaction, fulfill, commit,
//! record — is driven by the runtime around the library; every decision
//! it takes stands here with a contract.

use vstd::prelude::*;

use crate::domain::Order;
use crate::domain::OrderProcessingStatus;
use crate::errors::AppError;
use crate::errors::RepoError;
use crate::errors::spec_app_message;

verus! {

/// How many times a fulfillment is attempted before the order is
/// recorded as failed: retries are bounded.
pub const MAX_FULFILLMENT_ATTEMPTS: u32 = 3;

/// The terminal state a fulfillment result maps to: the order on
/// success, the error's reason on failure.
pub fn outcome_status(result: Result<Order, AppError>) -> (s: OrderProcessingStatus)
    ensures
        match result {
            Ok(order) => s == OrderProcessingStatus::Completed(order),
            Err(error) => s matches OrderProcessingStatus::Failed(reason) && reason@
                == spec_app_message(error),
        },
{
    match result {
        Ok(order) => OrderProcessingStatus::Completed(order),
        Err(error) => OrderProcessingStatus::Failed(error.message()),
    }
}

/// Whether a failed attempt is tried again: only a serialization
/// failure is retryable, and only while attempts remain.
pub fn should_retry(error: &AppError, attempts_made: u32) -> (r: bool)
    ensures
        r == (error matches AppError::Repo(RepoError::SerializationFailure) && attempts_made
            < MAX_FULFILLMENT_ATTEMPTS),
{
    match error {
        AppError::Repo(RepoError::SerializationFailure) => attempts_made
            < MAX_FULFILLMENT_ATTEMPTS,
        _ => false,
    }
}

/// Whether a failed attempt lost the race on the idempotency key: a
/// unique-violation conflict means a sibling committed the same order
/// first.  The fulfillment is then retried from the start and hits the
/// idempotent short-circuit — the debit of the failed attempt was
/// rolled back with its transaction.
pub fn is_idempotency_race(error: &AppError) -> (r: bool)
    ensures
        r == error matches AppError::Repo(RepoError::Conflict { .. }),
{
    match error {
        AppError::Repo(RepoError::Conflict { .. }) => true,
        _ => false,
    }
}

/// The worker's whole retry decision: a failed attempt runs again
/// exactly when it is a serialization failure or a lost idempotency
/// race, and attempts remain.  Everything else is terminal at once.
pub fn retry_fulfillment(error: &AppError, attempts_made: u32) -> (r: bool)
    ensures
        r == ((error matches AppError::Repo(RepoError::SerializationFailure)
            || error matches AppError::Repo(RepoError::Conflict { .. })) && attempts_made
            < MAX_FULFILLMENT_ATTEMPTS),
{
    if attempts_made >= MAX_FULFILLMENT_ATTEMPTS {
        return false;
    }
    should_retry(error, attempts_made) || is_idempotency_race(error)
}

} // verus!
