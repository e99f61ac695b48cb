//! HTTP surface of the error taxonomy: each application error maps to a
//! status code, a stable machine-readable code string and a message.

use vstd::prelude::*;
use vstd::string::StringExecFns;

use crate::errors::AppError;
use crate::errors::DomainError;
use crate::errors::RepoError;
use crate::errors::ServiceError;

verus! {

/// An error as the HTTP boundary reports it: status, stable code, message.
#[derive(Clone, Debug)]
pub struct ApiError {
    pub status: u16,
    pub code: String,
    pub message: String,
}

/// HTTP status of an [`AppError`]: domain validation is a client error,
/// missing rows are 404, conflicts and concurrent modification 409,
/// exhausted pools 503, rate limiting 429, broken business rules 422,
/// everything unclassified 500.
pub open spec fn spec_status_of(e: AppError) -> u16 {
    match e {
        AppError::Domain(_) => 400,
        AppError::Repo(inner) => match inner {
            RepoError::NotFound { .. } => 404,
            RepoError::Conflict { .. } => 409,
            RepoError::ForeignKeyViolation { .. } => 400,
            RepoError::CheckViolation { .. } => 400,
            RepoError::SerializationFailure => 409,
            RepoError::Transaction(_) => 500,
            RepoError::ConnectionPool(_) => 503,
            RepoError::Database { .. } => 500,
        },
        AppError::Service(inner) => match inner {
            ServiceError::Unauthenticated => 401,
            ServiceError::Forbidden(_) => 403,
            ServiceError::BusinessRule(_) => 422,
            ServiceError::Conflict(_) => 409,
            ServiceError::InvalidStateTransition(_) => 409,
            ServiceError::ExternalService { .. } => 502,
            ServiceError::RateLimitExceeded => 429,
        },
        AppError::Unexpected(_) => 500,
    }
}

/// Machine-readable code string of an [`AppError`].
pub open spec fn spec_code_of(e: AppError) -> Seq<char> {
    match e {
        AppError::Domain(inner) => match inner {
            DomainError::ProductNameEmpty => "PRODUCT_NAME_EMPTY"@,
            DomainError::ProductPriceInvalid => "PRODUCT_PRICE_INVALID"@,
            DomainError::InvalidEmail(_) => "INVALID_EMAIL"@,
            DomainError::InvalidUsername => "INVALID_USERNAME"@,
            DomainError::InvalidFlashSaleStartTime => "INVALID_FLASH_SALE_START_TIME"@,
            DomainError::InvalidFlashSaleEndTime => "INVALID_FLASH_SALE_END_TIME"@,
            DomainError::InvalidFlashSaleQuantity => "INVALID_FLASH_SALE_QUANTITY"@,
            DomainError::InvalidOrderQuantity => "INVALID_ORDER_QUANTITY"@,
            DomainError::OrderAlreadyCompleted => "ORDER_ALREADY_COMPLETED"@,
        },
        AppError::Repo(inner) => match inner {
            RepoError::NotFound { .. } => "NOT_FOUND"@,
            RepoError::Conflict { .. } => "CONFLICT"@,
            RepoError::ForeignKeyViolation { .. } => "FOREIGN_KEY_VIOLATION"@,
            RepoError::CheckViolation { .. } => "CHECK_VIOLATION"@,
            RepoError::SerializationFailure => "CONCURRENT_MODIFICATION"@,
            RepoError::Transaction(_) => "TRANSACTION_ERROR"@,
            RepoError::ConnectionPool(_) => "DATABASE_UNAVAILABLE"@,
            RepoError::Database { .. } => "DATABASE_ERROR"@,
        },
        AppError::Service(inner) => match inner {
            ServiceError::Unauthenticated => "UNAUTHENTICATED"@,
            ServiceError::Forbidden(_) => "FORBIDDEN"@,
            ServiceError::BusinessRule(_) => "BUSINESS_RULE_VIOLATION"@,
            ServiceError::Conflict(_) => "CONFLICT"@,
            ServiceError::InvalidStateTransition(_) => "INVALID_STATE_TRANSITION"@,
            ServiceError::ExternalService { .. } => "EXTERNAL_SERVICE_ERROR"@,
            ServiceError::RateLimitExceeded => "RATE_LIMIT_EXCEEDED"@,
        },
        AppError::Unexpected(_) => "INTERNAL_ERROR"@,
    }
}

/// Message of an [`AppError`] at the HTTP boundary.  Internal failures
/// keep a fixed wording; client-visible kinds carry their reason.
pub open spec fn spec_api_message_of(e: AppError) -> Seq<char> {
    match e {
        AppError::Domain(inner) => match inner {
            DomainError::ProductNameEmpty => "Product name cannot be empty"@,
            DomainError::ProductPriceInvalid => "Product price must be positive"@,
            DomainError::InvalidEmail(mail) => "Invalid email format: "@ + mail@,
            DomainError::InvalidUsername => "Username must be between 3 and 50 characters"@,
            DomainError::InvalidFlashSaleStartTime => {
                "Flash sale start time must be in the future"@
            },
            DomainError::InvalidFlashSaleEndTime => {
                "Flash sale end time must be after start time"@
            },
            DomainError::InvalidFlashSaleQuantity => "Flash sale quantity must be positive"@,
            DomainError::InvalidOrderQuantity => "Order quantity must be positive"@,
            DomainError::OrderAlreadyCompleted => "Cannot modify completed order"@,
        },
        AppError::Repo(inner) => match inner {
            RepoError::NotFound { entity_type } => entity_type@ + " not found"@,
            RepoError::Conflict { constraint } => "Resource already exists: "@ + constraint@,
            RepoError::ForeignKeyViolation { constraint } => "Invalid reference: "@ + constraint@,
            RepoError::CheckViolation { constraint } => "Constraint violation: "@ + constraint@,
            RepoError::SerializationFailure => "Resource was modified by another request"@,
            RepoError::Transaction(_) => "Database transaction failed"@,
            RepoError::ConnectionPool(_) => "Database connection failed"@,
            RepoError::Database { .. } => "Database operation failed"@,
        },
        AppError::Service(inner) => match inner {
            ServiceError::Unauthenticated => "Authentication required"@,
            ServiceError::Forbidden(reason) => reason@,
            ServiceError::BusinessRule(reason) => reason@,
            ServiceError::Conflict(reason) => reason@,
            ServiceError::InvalidStateTransition(reason) => reason@,
            ServiceError::ExternalService { service } => "External service error: "@ + service@,
            ServiceError::RateLimitExceeded => "Too many requests"@,
        },
        AppError::Unexpected(_) => "An unexpected error occurred"@,
    }
}

impl ApiError {
    /// Maps an [`AppError`] to its HTTP representation.
    pub fn from_app(value: AppError) -> (r: ApiError)
        ensures
            r.status == spec_status_of(value),
            r.code@ == spec_code_of(value),
            r.message@ == spec_api_message_of(value),
    {
        match value {
            AppError::Domain(inner) => {
                let status: u16 = 400;
                match inner {
                    DomainError::ProductNameEmpty => ApiError {
                        status,
                        code: String::from_str("PRODUCT_NAME_EMPTY"),
                        message: String::from_str("Product name cannot be empty"),
                    },
                    DomainError::ProductPriceInvalid => ApiError {
                        status,
                        code: String::from_str("PRODUCT_PRICE_INVALID"),
                        message: String::from_str("Product price must be positive"),
                    },
                    DomainError::InvalidEmail(mail) => ApiError {
                        status,
                        code: String::from_str("INVALID_EMAIL"),
                        message: String::from_str("Invalid email format: ").concat(mail.as_str()),
                    },
                    DomainError::InvalidUsername => ApiError {
                        status,
                        code: String::from_str("INVALID_USERNAME"),
                        message: String::from_str("Username must be between 3 and 50 characters"),
                    },
                    DomainError::InvalidFlashSaleStartTime => ApiError {
                        status,
                        code: String::from_str("INVALID_FLASH_SALE_START_TIME"),
                        message: String::from_str("Flash sale start time must be in the future"),
                    },
                    DomainError::InvalidFlashSaleEndTime => ApiError {
                        status,
                        code: String::from_str("INVALID_FLASH_SALE_END_TIME"),
                        message: String::from_str("Flash sale end time must be after start time"),
                    },
                    DomainError::InvalidFlashSaleQuantity => ApiError {
                        status,
                        code: String::from_str("INVALID_FLASH_SALE_QUANTITY"),
                        message: String::from_str("Flash sale quantity must be positive"),
                    },
                    DomainError::InvalidOrderQuantity => ApiError {
                        status,
                        code: String::from_str("INVALID_ORDER_QUANTITY"),
                        message: String::from_str("Order quantity must be positive"),
                    },
                    DomainError::OrderAlreadyCompleted => ApiError {
                        status,
                        code: String::from_str("ORDER_ALREADY_COMPLETED"),
                        message: String::from_str("Cannot modify completed order"),
                    },
                }
            },
            AppError::Repo(inner) => match inner {
                RepoError::NotFound { entity_type } => ApiError {
                    status: 404,
                    code: String::from_str("NOT_FOUND"),
                    message: entity_type.concat(" not found"),
                },
                RepoError::Conflict { constraint } => ApiError {
                    status: 409,
                    code: String::from_str("CONFLICT"),
                    message: String::from_str("Resource already exists: ").concat(
                        constraint.as_str(),
                    ),
                },
                RepoError::ForeignKeyViolation { constraint } => ApiError {
                    status: 400,
                    code: String::from_str("FOREIGN_KEY_VIOLATION"),
                    message: String::from_str("Invalid reference: ").concat(constraint.as_str()),
                },
                RepoError::CheckViolation { constraint } => ApiError {
                    status: 400,
                    code: String::from_str("CHECK_VIOLATION"),
                    message: String::from_str("Constraint violation: ").concat(
                        constraint.as_str(),
                    ),
                },
                RepoError::SerializationFailure => ApiError {
                    status: 409,
                    code: String::from_str("CONCURRENT_MODIFICATION"),
                    message: String::from_str("Resource was modified by another request"),
                },
                RepoError::Transaction(_) => ApiError {
                    status: 500,
                    code: String::from_str("TRANSACTION_ERROR"),
                    message: String::from_str("Database transaction failed"),
                },
                RepoError::ConnectionPool(_) => ApiError {
                    status: 503,
                    code: String::from_str("DATABASE_UNAVAILABLE"),
                    message: String::from_str("Database connection failed"),
                },
                RepoError::Database { .. } => ApiError {
                    status: 500,
                    code: String::from_str("DATABASE_ERROR"),
                    message: String::from_str("Database operation failed"),
                },
            },
            AppError::Service(inner) => match inner {
                ServiceError::Unauthenticated => ApiError {
                    status: 401,
                    code: String::from_str("UNAUTHENTICATED"),
                    message: String::from_str("Authentication required"),
                },
                ServiceError::Forbidden(reason) => ApiError {
                    status: 403,
                    code: String::from_str("FORBIDDEN"),
                    message: reason,
                },
                ServiceError::BusinessRule(reason) => ApiError {
                    status: 422,
                    code: String::from_str("BUSINESS_RULE_VIOLATION"),
                    message: reason,
                },
                ServiceError::Conflict(reason) => ApiError {
                    status: 409,
                    code: String::from_str("CONFLICT"),
                    message: reason,
                },
                ServiceError::InvalidStateTransition(reason) => ApiError {
                    status: 409,
                    code: String::from_str("INVALID_STATE_TRANSITION"),
                    message: reason,
                },
                ServiceError::ExternalService { service } => ApiError {
                    status: 502,
                    code: String::from_str("EXTERNAL_SERVICE_ERROR"),
                    message: String::from_str("External service error: ").concat(service.as_str()),
                },
                ServiceError::RateLimitExceeded => ApiError {
                    status: 429,
                    code: String::from_str("RATE_LIMIT_EXCEEDED"),
                    message: String::from_str("Too many requests"),
                },
            },
            AppError::Unexpected(_) => ApiError {
                status: 500,
                code: String::from_str("INTERNAL_ERROR"),
                message: String::from_str("An unexpected error occurred"),
            },
        }
    }

    /// A failed database transaction, reported as an internal error.
    pub fn transaction_error(reason: String) -> (r: ApiError)
        ensures
            r.status == 500,
            r.code@ == "TRANSACTION_ERROR"@,
            r.message@ == "Database transaction failed: "@ + reason@,
    {
        ApiError {
            status: 500,
            code: String::from_str("TRANSACTION_ERROR"),
            message: String::from_str("Database transaction failed: ").concat(reason.as_str()),
        }
    }

    /// A failed database connection, reported as service unavailability.
    pub fn connection_error() -> (r: ApiError)
        ensures
            r.status == 503,
            r.code@ == "DATABASE_UNAVAILABLE"@,
            r.message@ == "Database connection failed"@,
    {
        ApiError {
            status: 503,
            code: String::from_str("DATABASE_UNAVAILABLE"),
            message: String::from_str("Database connection failed"),
        }
    }

    /// Overload shedding: the service cannot take the request now.
    pub fn service_unavailable(message: String) -> (r: ApiError)
        ensures
            r.status == 503,
            r.code@ == "SERVICE_UNAVAILABLE"@,
            r.message@ == message@,
    {
        ApiError {
            status: 503,
            code: String::from_str("SERVICE_UNAVAILABLE"),
            message,
        }
    }

    /// An unclassified internal failure.
    pub fn internal(message: String) -> (r: ApiError)
        ensures
            r.status == 500,
            r.code@ == "INTERNAL_ERROR"@,
            r.message@ == message@,
    {
        ApiError {
            status: 500,
            code: String::from_str("INTERNAL_ERROR"),
            message,
        }
    }

    /// A request the client phrased wrongly.
    pub fn bad_request(code: String, message: String) -> (r: ApiError)
        ensures
            r.status == 400,
            r.code@ == code@,
            r.message@ == message@,
    {
        ApiError { status: 400, code, message }
    }
}

} // verus!
