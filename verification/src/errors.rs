//! Layered error taxonomy: domain validation, repository, service and
//! unexpected kinds, with the human-readable reason each one carries.

use vstd::prelude::*;
use vstd::string::StringExecFns;

verus! {

/// Validation failures of domain values.
#[derive(Clone, Debug)]
pub enum DomainError {
    ProductNameEmpty,
    ProductPriceInvalid,
    InvalidEmail(String),
    InvalidUsername,
    InvalidFlashSaleStartTime,
    InvalidFlashSaleEndTime,
    InvalidFlashSaleQuantity,
    InvalidOrderQuantity,
    OrderAlreadyCompleted,
}

/// Failures surfaced by the storage layer.
#[derive(Clone, Debug)]
pub enum RepoError {
    NotFound { entity_type: String },
    Conflict { constraint: String },
    ForeignKeyViolation { constraint: String },
    CheckViolation { constraint: String },
    Transaction(String),
    ConnectionPool(String),
    SerializationFailure,
    Database { operation: String },
}

/// Failures of service-level rules.
#[derive(Clone, Debug)]
pub enum ServiceError {
    Unauthenticated,
    Forbidden(String),
    BusinessRule(String),
    Conflict(String),
    InvalidStateTransition(String),
    ExternalService { service: String },
    RateLimitExceeded,
}

/// Any failure of the application, classified at its origin.
#[derive(Clone, Debug)]
pub enum AppError {
    Domain(DomainError),
    Repo(RepoError),
    Service(ServiceError),
    Unexpected(String),
}

/// Reason string of a [`DomainError`].
pub open spec fn spec_domain_message(e: DomainError) -> Seq<char> {
    match e {
        DomainError::ProductNameEmpty => "product name cannot be empty"@,
        DomainError::ProductPriceInvalid => "product price must be positive"@,
        DomainError::InvalidEmail(mail) => "invalid email format: "@ + mail@,
        DomainError::InvalidUsername => "username must be between 3 and 50 characters"@,
        DomainError::InvalidFlashSaleStartTime => "flash sale start time must be in the future"@,
        DomainError::InvalidFlashSaleEndTime => "flash sale end time must be after start time"@,
        DomainError::InvalidFlashSaleQuantity => "flash sale quantity must be positive"@,
        DomainError::InvalidOrderQuantity => "order quantity must be positive"@,
        DomainError::OrderAlreadyCompleted => "cannot modify completed order"@,
    }
}

/// Reason string of a [`RepoError`].
pub open spec fn spec_repo_message(e: RepoError) -> Seq<char> {
    match e {
        RepoError::NotFound { entity_type } => entity_type@ + " not found"@,
        RepoError::Conflict { constraint } => "duplicate key violation on "@ + constraint@,
        RepoError::ForeignKeyViolation { constraint } => "foreign key violation: "@ + constraint@,
        RepoError::CheckViolation { constraint } => "check constraint violation: "@ + constraint@,
        RepoError::Transaction(reason) => "transaction error: "@ + reason@,
        RepoError::ConnectionPool(reason) => "connection pool error: "@ + reason@,
        RepoError::SerializationFailure => {
            "serialization failure - concurrent modification detected"@
        },
        RepoError::Database { operation } => "database error during "@ + operation@,
    }
}

/// Reason string of a [`ServiceError`].  Rule violations and conflicts
/// carry their reason verbatim, so the status store records reasons such
/// as `sold out` exactly.
pub open spec fn spec_service_message(e: ServiceError) -> Seq<char> {
    match e {
        ServiceError::Unauthenticated => "authentication required"@,
        ServiceError::Forbidden(reason) => "insufficient permissions: "@ + reason@,
        ServiceError::BusinessRule(reason) => reason@,
        ServiceError::Conflict(reason) => reason@,
        ServiceError::InvalidStateTransition(reason) => "invalid state transition: "@ + reason@,
        ServiceError::ExternalService { service } => "external service error: "@ + service@,
        ServiceError::RateLimitExceeded => "rate limit exceeded"@,
    }
}

/// Reason string of an [`AppError`]: the inner kind's reason.
pub open spec fn spec_app_message(e: AppError) -> Seq<char> {
    match e {
        AppError::Domain(inner) => spec_domain_message(inner),
        AppError::Repo(inner) => spec_repo_message(inner),
        AppError::Service(inner) => spec_service_message(inner),
        AppError::Unexpected(reason) => reason@,
    }
}

impl DomainError {
    /// The human-readable reason of this error.
    pub fn message(&self) -> (r: String)
        ensures
            r@ == spec_domain_message(*self),
    {
        match self {
            DomainError::ProductNameEmpty => String::from_str("product name cannot be empty"),
            DomainError::ProductPriceInvalid => {
                String::from_str("product price must be positive")
            },
            DomainError::InvalidEmail(mail) => {
                String::from_str("invalid email format: ").concat(mail.as_str())
            },
            DomainError::InvalidUsername => {
                String::from_str("username must be between 3 and 50 characters")
            },
            DomainError::InvalidFlashSaleStartTime => {
                String::from_str("flash sale start time must be in the future")
            },
            DomainError::InvalidFlashSaleEndTime => {
                String::from_str("flash sale end time must be after start time")
            },
            DomainError::InvalidFlashSaleQuantity => {
                String::from_str("flash sale quantity must be positive")
            },
            DomainError::InvalidOrderQuantity => {
                String::from_str("order quantity must be positive")
            },
            DomainError::OrderAlreadyCompleted => {
                String::from_str("cannot modify completed order")
            },
        }
    }
}

impl RepoError {
    /// The human-readable reason of this error.
    pub fn message(&self) -> (r: String)
        ensures
            r@ == spec_repo_message(*self),
    {
        match self {
            RepoError::NotFound { entity_type } => {
                entity_type.clone().concat(" not found")
            },
            RepoError::Conflict { constraint } => {
                String::from_str("duplicate key violation on ").concat(constraint.as_str())
            },
            RepoError::ForeignKeyViolation { constraint } => {
                String::from_str("foreign key violation: ").concat(constraint.as_str())
            },
            RepoError::CheckViolation { constraint } => {
                String::from_str("check constraint violation: ").concat(constraint.as_str())
            },
            RepoError::Transaction(reason) => {
                String::from_str("transaction error: ").concat(reason.as_str())
            },
            RepoError::ConnectionPool(reason) => {
                String::from_str("connection pool error: ").concat(reason.as_str())
            },
            RepoError::SerializationFailure => {
                String::from_str("serialization failure - concurrent modification detected")
            },
            RepoError::Database { operation } => {
                String::from_str("database error during ").concat(operation.as_str())
            },
        }
    }
}

impl ServiceError {
    /// The human-readable reason of this error.
    pub fn message(&self) -> (r: String)
        ensures
            r@ == spec_service_message(*self),
    {
        match self {
            ServiceError::Unauthenticated => String::from_str("authentication required"),
            ServiceError::Forbidden(reason) => {
                String::from_str("insufficient permissions: ").concat(reason.as_str())
            },
            ServiceError::BusinessRule(reason) => reason.clone(),
            ServiceError::Conflict(reason) => reason.clone(),
            ServiceError::InvalidStateTransition(reason) => {
                String::from_str("invalid state transition: ").concat(reason.as_str())
            },
            ServiceError::ExternalService { service } => {
                String::from_str("external service error: ").concat(service.as_str())
            },
            ServiceError::RateLimitExceeded => String::from_str("rate limit exceeded"),
        }
    }
}

impl AppError {
    /// The human-readable reason of this error: the inner kind's reason.
    pub fn message(&self) -> (r: String)
        ensures
            r@ == spec_app_message(*self),
    {
        match self {
            AppError::Domain(inner) => inner.message(),
            AppError::Repo(inner) => inner.message(),
            AppError::Service(inner) => inner.message(),
            AppError::Unexpected(reason) => reason.clone(),
        }
    }
}

} // verus!
