//! Order intake and status polling.
//!
//! Admission runs the load-bearing sequence of `POST /orders`: validate
//! the idempotency key, derive the deterministic order id, check the
//! rate limit, reserve a queue slot, record `Pending`, send to the
//! worker, answer accepted.  The order guarantees that a rejected
//! request — malformed, rate-limited or shed under load — never touches
//! the status store, and that an accepted request's order id is exactly
//! the one derived from the key.

use vstd::prelude::*;
use vstd::string::StringExecFns;

use crate::api_error::ApiError;
use crate::domain::CreateOrderCommand;
use crate::domain::OrderProcessingStatus;
use crate::dtos::CreateOrderRequest;
use crate::dtos::OrderAcceptedResponse;
use crate::dtos::OrderResponse;
use crate::dtos::OrderResult;
use crate::dtos::OrderStatusResponse;
use crate::dtos::spec_status_text;
use crate::errors::AppError;
use crate::errors::ServiceError;
use crate::idempotency::ORDER_ID_NAMESPACE;
use crate::idempotency::derive_order_id;
use crate::idempotency::normalize_idempotency_key;
use crate::idempotency::trim_of;
use crate::idempotency::uuid5_of;
use crate::idempotency::uuid_of;
use crate::idempotency::uuid_text_of;
use crate::queue::OrderQueueMessage;
use crate::queue::send_reserved;
use crate::queue::try_reserve_slot;
use crate::rate_limit::UserRateLimiter;
use crate::status_store::StatusStore;
use crate::status_store::store_entries;

verus! {

/// The header names a well-formed idempotency key: trimmed, it parses
/// as a UUID.
pub open spec fn spec_key_valid(header: Option<&str>) -> bool {
    header matches Some(h) && uuid_of(trim_of(h@)) is Some
}

/// The canonical key text of a well-formed header.
pub open spec fn spec_canonical_key(header: Seq<char>) -> Seq<char> {
    uuid_text_of(uuid_of(trim_of(header)).unwrap())
}

/// The order id every admission of this header derives.
pub open spec fn spec_order_id(header: Seq<char>) -> u128 {
    uuid5_of(ORDER_ID_NAMESPACE, spec_canonical_key(header))
}

/// The exact message an accepted admission publishes to the queue: the
/// derived order id, and a command carrying that same id, the payload's
/// user, sale and quantity, and the canonical idempotency key.  This is
/// what the worker fulfills, so the id it persists is the id the
/// accepted response returned.
pub fn admission_message(
    order_id: u128,
    payload: &CreateOrderRequest,
    idempotency_key: String,
) -> (m: OrderQueueMessage)
    ensures
        m.order_id == order_id,
        m.command.order_id == order_id,
        m.command.user_id == payload.user_id,
        m.command.flash_sale_id == payload.flash_sale_id,
        m.command.quantity == payload.quantity,
        m.command.idempotency_key@ == idempotency_key@,
{
    OrderQueueMessage {
        order_id,
        command: CreateOrderCommand {
            order_id,
            user_id: payload.user_id,
            flash_sale_id: payload.flash_sale_id,
            quantity: payload.quantity,
            idempotency_key,
        },
    }
}

/// Admits one `POST /orders` request.
///
/// In admission order: a missing or malformed idempotency key and a
/// non-positive quantity are rejected outright; then the per-user rate
/// limit may answer 429 and a full queue 503.  Every rejected request
/// leaves the status store untouched.  An accepted request has recorded
/// `Pending` under its derived order id (never overwriting a terminal
/// state), has published [`admission_message`] of that id, the payload
/// and the canonical key on the reserved slot, and answers the derived
/// order id with its polling URL.
pub fn create_order(
    idempotency_header: Option<&str>,
    payload: &CreateOrderRequest,
    rate_limiter: &UserRateLimiter,
    queue_tx: &tokio::sync::mpsc::Sender<OrderQueueMessage>,
    status_store: &mut StatusStore,
) -> (r: Result<OrderAcceptedResponse, ApiError>)
    ensures
        !spec_key_valid(idempotency_header) ==> (r matches Err(e) && e.status == 400 && e.code@
            == "INVALID_IDEMPOTENCY_KEY"@),
        spec_key_valid(idempotency_header) && payload.quantity <= 0 ==> (r matches Err(e)
            && e.status == 400 && e.code@ == "INVALID_QUANTITY"@),
        r is Err ==> store_entries(*final(status_store)) == store_entries(*old(status_store)),
        (r is Err && spec_key_valid(idempotency_header) && payload.quantity > 0) ==> (
        r matches Err(e) && ((e.status == 429 && e.code@ == "RATE_LIMIT_EXCEEDED"@) || (e.status
            == 503 && e.code@ == "SERVICE_UNAVAILABLE"@))),
        r matches Ok(resp) ==> (idempotency_header matches Some(h) && {
            &&& uuid_of(trim_of(h@)) is Some
            &&& payload.quantity > 0
            &&& resp.order_id == spec_order_id(h@)
            &&& resp.status@ == "pending"@
            &&& resp.status_url@ == "/orders/"@ + uuid_text_of(resp.order_id) + "/status"@
            &&& store_entries(*final(status_store)) == (if store_entries(
                *old(status_store),
            ).dom().contains(resp.order_id) && store_entries(
                *old(status_store),
            )[resp.order_id].is_terminal() {
                store_entries(*old(status_store))
            } else {
                store_entries(*old(status_store)).insert(
                    resp.order_id,
                    OrderProcessingStatus::Pending,
                )
            })
        }),
{
    let raw: &str = match idempotency_header {
        Some(h) => h,
        None => {
            return Err(
                ApiError::bad_request(
                    String::from_str("INVALID_IDEMPOTENCY_KEY"),
                    String::from_str("Idempotency-Key header is required for all order requests"),
                ),
            );
        },
    };
    let key: String = match normalize_idempotency_key(raw) {
        Some(k) => k,
        None => {
            return Err(
                ApiError::bad_request(
                    String::from_str("INVALID_IDEMPOTENCY_KEY"),
                    String::from_str("Invalid Idempotency-Key format. Expected UUID."),
                ),
            );
        },
    };
    if payload.quantity <= 0 {
        return Err(
            ApiError::bad_request(
                String::from_str("INVALID_QUANTITY"),
                String::from_str("Order quantity must be positive"),
            ),
        );
    }
    let order_id: u128 = derive_order_id(key.as_str());
    if !rate_limiter.check(payload.user_id) {
        return Err(ApiError::from_app(AppError::Service(ServiceError::RateLimitExceeded)));
    }
    let permit = match try_reserve_slot(queue_tx) {
        Some(p) => p,
        None => {
            return Err(
                ApiError::service_unavailable(
                    String::from_str("Order queue is full. Please try again later."),
                ),
            );
        },
    };
    status_store.record_pending(order_id);
    send_reserved(permit, admission_message(order_id, payload, key));
    let status_url = String::from_str("/orders/").concat(
        crate::idempotency::uuid_format(order_id).as_str(),
    ).concat("/status");
    Ok(
        OrderAcceptedResponse {
            order_id,
            status: String::from_str("pending"),
            status_url,
        },
    )
}

/// Answers one `GET /orders/{id}/status` poll: 404 exactly when the
/// store holds no entry for the id; otherwise the stored state, with
/// the order's data when completed and the reason when failed.
pub fn get_order_status(status_store: &StatusStore, order_id: u128) -> (r: Result<
    OrderStatusResponse,
    ApiError,
>)
    ensures
        r is Err <==> !store_entries(*status_store).dom().contains(order_id),
        r matches Err(e) ==> e.status == 404 && e.code@ == "ORDER_NOT_FOUND"@,
        r matches Ok(resp) ==> {
            &&& resp.order_id == order_id
            &&& match store_entries(*status_store)[order_id] {
                OrderProcessingStatus::Pending => resp.status@ == "pending"@ && resp.result
                    is None,
                OrderProcessingStatus::Completed(order) => resp.status@ == "completed"@ && (
                resp.result matches Some(OrderResult::Success(body)) && body.order_id == order.id
                    && body.status@ == spec_status_text(order.status)),
                OrderProcessingStatus::Failed(reason) => resp.status@ == "failed"@ && (resp.result
                    matches Some(OrderResult::Error { message }) && message@ == reason@),
            }
        },
{
    match status_store.get(order_id) {
        Some(OrderProcessingStatus::Pending) => Ok(
            OrderStatusResponse {
                order_id,
                status: String::from_str("pending"),
                result: None,
            },
        ),
        Some(OrderProcessingStatus::Completed(order)) => Ok(
            OrderStatusResponse {
                order_id,
                status: String::from_str("completed"),
                result: Some(OrderResult::Success(OrderResponse::from_order(&order))),
            },
        ),
        Some(OrderProcessingStatus::Failed(reason)) => Ok(
            OrderStatusResponse {
                order_id,
                status: String::from_str("failed"),
                result: Some(OrderResult::Error { message: reason }),
            },
        ),
        None => Err(
            ApiError {
                status: 404,
                code: String::from_str("ORDER_NOT_FOUND"),
                message: String::from_str("Order not found"),
            },
        ),
    }
}

} // verus!
