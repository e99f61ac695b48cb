//! The error taxonomy: HTTP mapping of every kind, the reason strings,
//! the database-error classification, and product validation.

use flash_sale::api_error::ApiError;
use flash_sale::domain::{Order, OrderStatus};
use flash_sale::dtos::OrderResponse;
use flash_sale::error_mapper::{classify_db_error, map_sqlx_error, DbErrorInfo};
use flash_sale::errors::{AppError, DomainError, RepoError, ServiceError};
use flash_sale::product::{CreateProductCommand, Product, ProductName};
use flash_sale::repos::{
    PostgresFlashSaleRepo, PostgresOrderRepo, PostgresProductRepo, PostgresUserRepo,
};

fn mapped(e: AppError) -> (u16, String, String) {
    let api = ApiError::from_app(e);
    (api.status, api.code, api.message)
}

#[test]
fn domain_errors_map_to_bad_request() {
    let cases = [
        (DomainError::ProductNameEmpty, "PRODUCT_NAME_EMPTY", "Product name cannot be empty"),
        (
            DomainError::ProductPriceInvalid,
            "PRODUCT_PRICE_INVALID",
            "Product price must be positive",
        ),
        (
            DomainError::InvalidUsername,
            "INVALID_USERNAME",
            "Username must be between 3 and 50 characters",
        ),
        (
            DomainError::InvalidFlashSaleStartTime,
            "INVALID_FLASH_SALE_START_TIME",
            "Flash sale start time must be in the future",
        ),
        (
            DomainError::InvalidFlashSaleEndTime,
            "INVALID_FLASH_SALE_END_TIME",
            "Flash sale end time must be after start time",
        ),
        (
            DomainError::InvalidFlashSaleQuantity,
            "INVALID_FLASH_SALE_QUANTITY",
            "Flash sale quantity must be positive",
        ),
        (
            DomainError::InvalidOrderQuantity,
            "INVALID_ORDER_QUANTITY",
            "Order quantity must be positive",
        ),
        (
            DomainError::OrderAlreadyCompleted,
            "ORDER_ALREADY_COMPLETED",
            "Cannot modify completed order",
        ),
    ];
    for (e, code, message) in cases {
        let (status, got_code, got_message) = mapped(AppError::Domain(e));
        assert_eq!(status, 400);
        assert_eq!(got_code, code);
        assert_eq!(got_message, message);
    }
    let (status, code, message) =
        mapped(AppError::Domain(DomainError::InvalidEmail("a@b".to_string())));
    assert_eq!(status, 400);
    assert_eq!(code, "INVALID_EMAIL");
    assert_eq!(message, "Invalid email format: a@b");
}

#[test]
fn repo_errors_map_to_their_statuses() {
    let (s, c, m) = mapped(AppError::Repo(RepoError::NotFound {
        entity_type: "FlashSale".to_string(),
    }));
    assert_eq!((s, c.as_str(), m.as_str()), (404, "NOT_FOUND", "FlashSale not found"));

    let (s, c, m) = mapped(AppError::Repo(RepoError::Conflict {
        constraint: "orders_idempotency_key_key".to_string(),
    }));
    assert_eq!(s, 409);
    assert_eq!(c, "CONFLICT");
    assert_eq!(m, "Resource already exists: orders_idempotency_key_key");

    let (s, c, m) = mapped(AppError::Repo(RepoError::ForeignKeyViolation {
        constraint: "orders_flash_sale_id_fkey".to_string(),
    }));
    assert_eq!((s, c.as_str()), (400, "FOREIGN_KEY_VIOLATION"));
    assert_eq!(m, "Invalid reference: orders_flash_sale_id_fkey");

    let (s, c, m) = mapped(AppError::Repo(RepoError::CheckViolation {
        constraint: "orders_quantity_check".to_string(),
    }));
    assert_eq!((s, c.as_str()), (400, "CHECK_VIOLATION"));
    assert_eq!(m, "Constraint violation: orders_quantity_check");

    let (s, c, m) = mapped(AppError::Repo(RepoError::SerializationFailure));
    assert_eq!((s, c.as_str()), (409, "CONCURRENT_MODIFICATION"));
    assert_eq!(m, "Resource was modified by another request");

    let (s, c, m) = mapped(AppError::Repo(RepoError::Transaction("boom".to_string())));
    assert_eq!((s, c.as_str(), m.as_str()), (500, "TRANSACTION_ERROR", "Database transaction failed"));

    let (s, c, m) = mapped(AppError::Repo(RepoError::ConnectionPool("dry".to_string())));
    assert_eq!((s, c.as_str(), m.as_str()), (503, "DATABASE_UNAVAILABLE", "Database connection failed"));

    let (s, c, m) = mapped(AppError::Repo(RepoError::Database {
        operation: "save_order".to_string(),
    }));
    assert_eq!((s, c.as_str(), m.as_str()), (500, "DATABASE_ERROR", "Database operation failed"));
}

#[test]
fn service_errors_map_to_their_statuses() {
    let (s, c, m) = mapped(AppError::Service(ServiceError::Unauthenticated));
    assert_eq!((s, c.as_str(), m.as_str()), (401, "UNAUTHENTICATED", "Authentication required"));

    let (s, c, m) = mapped(AppError::Service(ServiceError::Forbidden("no".to_string())));
    assert_eq!((s, c.as_str(), m.as_str()), (403, "FORBIDDEN", "no"));

    let (s, c, m) = mapped(AppError::Service(ServiceError::BusinessRule(
        "flash sale is not active".to_string(),
    )));
    assert_eq!((s, c.as_str(), m.as_str()), (422, "BUSINESS_RULE_VIOLATION", "flash sale is not active"));

    let (s, c, m) = mapped(AppError::Service(ServiceError::Conflict("sold out".to_string())));
    assert_eq!((s, c.as_str(), m.as_str()), (409, "CONFLICT", "sold out"));

    let (s, c, m) = mapped(AppError::Service(ServiceError::InvalidStateTransition(
        "done".to_string(),
    )));
    assert_eq!((s, c.as_str(), m.as_str()), (409, "INVALID_STATE_TRANSITION", "done"));

    let (s, c, m) = mapped(AppError::Service(ServiceError::ExternalService {
        service: "payments".to_string(),
    }));
    assert_eq!((s, c.as_str(), m.as_str()), (502, "EXTERNAL_SERVICE_ERROR", "External service error: payments"));

    let (s, c, m) = mapped(AppError::Service(ServiceError::RateLimitExceeded));
    assert_eq!((s, c.as_str(), m.as_str()), (429, "RATE_LIMIT_EXCEEDED", "Too many requests"));

    let (s, c, m) = mapped(AppError::Unexpected("lost".to_string()));
    assert_eq!((s, c.as_str(), m.as_str()), (500, "INTERNAL_ERROR", "An unexpected error occurred"));
}

#[test]
fn reason_strings_carry_their_payload() {
    assert_eq!(
        AppError::Service(ServiceError::Conflict("sold out".to_string())).message(),
        "sold out"
    );
    assert_eq!(
        AppError::Service(ServiceError::BusinessRule("flash sale is not active".to_string()))
            .message(),
        "flash sale is not active"
    );
    assert_eq!(
        AppError::Repo(RepoError::SerializationFailure).message(),
        "serialization failure - concurrent modification detected"
    );
    assert_eq!(
        AppError::Repo(RepoError::Conflict { constraint: "k".to_string() }).message(),
        "duplicate key violation on k"
    );
    assert_eq!(
        AppError::Domain(DomainError::ProductNameEmpty).message(),
        "product name cannot be empty"
    );
    assert_eq!(AppError::Unexpected("lost".to_string()).message(), "lost");
}

#[test]
fn api_error_helpers_fill_their_fields() {
    let t = ApiError::transaction_error("timeout".to_string());
    assert_eq!((t.status, t.code.as_str()), (500, "TRANSACTION_ERROR"));
    assert_eq!(t.message, "Database transaction failed: timeout");

    let c = ApiError::connection_error();
    assert_eq!((c.status, c.code.as_str(), c.message.as_str()), (503, "DATABASE_UNAVAILABLE", "Database connection failed"));

    let u = ApiError::service_unavailable("Order queue is full. Please try again later.".to_string());
    assert_eq!((u.status, u.code.as_str()), (503, "SERVICE_UNAVAILABLE"));

    let i = ApiError::internal("broken".to_string());
    assert_eq!((i.status, i.code.as_str(), i.message.as_str()), (500, "INTERNAL_ERROR", "broken"));

    let b = ApiError::bad_request("INVALID_UUID".to_string(), "Invalid UUID format".to_string());
    assert_eq!((b.status, b.code.as_str(), b.message.as_str()), (400, "INVALID_UUID", "Invalid UUID format"));
}

#[test]
fn database_error_classification_follows_the_flags() {
    let base = DbErrorInfo {
        row_not_found: false,
        constraint: None,
        unique_violation: false,
        foreign_key_violation: false,
        check_violation: false,
        serialization_failure: false,
    };

    let not_found = DbErrorInfo { row_not_found: true, ..base_clone(&base) };
    match classify_db_error(&not_found, "find_order", "order") {
        RepoError::NotFound { entity_type } => assert_eq!(entity_type, "order"),
        other => panic!("expected not-found, got {:?}", other),
    }

    let unique = DbErrorInfo {
        constraint: Some("orders_idempotency_key_key".to_string()),
        unique_violation: true,
        ..base_clone(&base)
    };
    match classify_db_error(&unique, "save_order", "order") {
        RepoError::Conflict { constraint } => assert_eq!(constraint, "orders_idempotency_key_key"),
        other => panic!("expected a conflict, got {:?}", other),
    }

    let foreign = DbErrorInfo {
        constraint: Some("orders_user_id_fkey".to_string()),
        foreign_key_violation: true,
        ..base_clone(&base)
    };
    assert!(matches!(
        classify_db_error(&foreign, "save_order", "order"),
        RepoError::ForeignKeyViolation { .. }
    ));

    let check = DbErrorInfo {
        constraint: Some("orders_quantity_check".to_string()),
        check_violation: true,
        ..base_clone(&base)
    };
    assert!(matches!(
        classify_db_error(&check, "save_order", "order"),
        RepoError::CheckViolation { .. }
    ));

    let serialization = DbErrorInfo { serialization_failure: true, ..base_clone(&base) };
    assert!(matches!(
        classify_db_error(&serialization, "save_order", "order"),
        RepoError::SerializationFailure
    ));

    match classify_db_error(&base, "save_order", "order") {
        RepoError::Database { operation } => assert_eq!(operation, "save_order"),
        other => panic!("expected the fallback, got {:?}", other),
    }
}

fn base_clone(info: &DbErrorInfo) -> DbErrorInfo {
    DbErrorInfo {
        row_not_found: info.row_not_found,
        constraint: info.constraint.clone(),
        unique_violation: info.unique_violation,
        foreign_key_violation: info.foreign_key_violation,
        check_violation: info.check_violation,
        serialization_failure: info.serialization_failure,
    }
}

#[test]
fn sqlx_errors_are_read_and_classified() {
    let not_found = map_sqlx_error(&sqlx::Error::RowNotFound, "find_flash_sale", "flash_sale");
    match not_found {
        RepoError::NotFound { entity_type } => assert_eq!(entity_type, "flash_sale"),
        other => panic!("expected not-found, got {:?}", other),
    }
    let other = map_sqlx_error(
        &sqlx::Error::Protocol("unexpected packet".to_string()),
        "save_order",
        "order",
    );
    match other {
        RepoError::Database { operation } => assert_eq!(operation, "save_order"),
        got => panic!("expected the fallback, got {:?}", got),
    }
}

#[test]
fn product_names_must_have_substance() {
    assert!(matches!(
        ProductName::new("".to_string()),
        Err(AppError::Domain(DomainError::ProductNameEmpty))
    ));
    assert!(matches!(
        ProductName::new("   \t ".to_string()),
        Err(AppError::Domain(DomainError::ProductNameEmpty))
    ));
    let name = ProductName::new("  Gadget  ".to_string()).expect("a padded name is kept as given");
    assert_eq!(name.as_str(), "  Gadget  ");

    let product = Product::from_command(
        CreateProductCommand { id: 5, name: "Gadget".to_string(), },
        1234,
    )
    .expect("a named product is valid");
    assert_eq!(product.id, 5);
    assert_eq!(product.name.as_str(), "Gadget");
    assert_eq!(product.created_at, 1234);
    assert!(Product::from_command(
        CreateProductCommand { id: 6, name: " ".to_string() },
        1234
    )
    .is_err());
}

#[test]
fn responses_spell_statuses_upper_case() {
    let order = Order::new(
        1,
        2,
        3,
        4,
        "aaaa0000-0000-0000-0000-0000000000aa".to_string(),
        1500,
    );
    assert_eq!(order.status, OrderStatus::Pending);
    let body = OrderResponse::from_order(&order);
    assert_eq!(body.order_id, 1);
    assert_eq!(body.status, "PENDING");
    assert_eq!(OrderStatus::Confirmed.text(), "CONFIRMED");
    assert_eq!(OrderStatus::Failed.text(), "FAILED");
}

#[test]
fn repository_markers_construct() {
    let _ = PostgresFlashSaleRepo::new();
    let _ = PostgresOrderRepo::new();
    let _ = PostgresProductRepo::new();
    let _ = PostgresUserRepo::new();
    let user = flash_sale::user::User { id: 9, created_at: 100 };
    assert_eq!(user.id, 9);
}
