//! The fulfillment transaction and the synchronous purchase against
//! the in-memory image: conservation, idempotency, the rule order, and
//! the worker's decisions.

use flash_sale::domain::{CreateOrderCommand, FlashSale, OrderStatus};
use flash_sale::dtos::PurchaseRequest;
use flash_sale::errors::{AppError, RepoError, ServiceError};
use flash_sale::fulfillment::{create_order as fulfill, create_purchase, evaluate_sale, Database};
use flash_sale::worker::{
    is_idempotency_race, retry_fulfillment, should_retry, MAX_FULFILLMENT_ATTEMPTS,
};

fn sale(id: u128, total: i32) -> FlashSale {
    FlashSale {
        id,
        product_id: 3,
        start_time: 1000,
        end_time: 2000,
        total_inventory: total,
        remaining_inventory: total,
        per_user_limit: 100,
        created_at: 500,
    }
}

fn command(order_id: u128, sale_id: u128, quantity: i32, key: &str) -> CreateOrderCommand {
    CreateOrderCommand {
        order_id,
        user_id: 1,
        flash_sale_id: sale_id,
        quantity,
        idempotency_key: key.to_string(),
    }
}

#[test]
fn confirmed_quantities_equal_the_inventory_debited() {
    let mut db = Database::new();
    db.add_sale(sale(1, 10));
    fulfill(&mut db, &command(1, 1, 3, "eeee0000-0000-0000-0000-000000000001"), 1500).unwrap();
    fulfill(&mut db, &command(2, 1, 2, "eeee0000-0000-0000-0000-000000000002"), 1500).unwrap();
    fulfill(&mut db, &command(3, 1, 4, "eeee0000-0000-0000-0000-000000000003"), 1500).unwrap();
    let confirmed: i64 = db
        .orders
        .iter()
        .filter(|o| o.flash_sale_id == 1 && o.status == OrderStatus::Confirmed)
        .map(|o| o.quantity as i64)
        .sum();
    let s = &db.sales[0];
    assert_eq!(confirmed, (s.total_inventory - s.remaining_inventory) as i64);
    assert_eq!(s.remaining_inventory, 1);

    let refused = fulfill(
        &mut db,
        &command(4, 1, 2, "eeee0000-0000-0000-0000-000000000004"),
        1500,
    )
    .expect_err("two units cannot come out of one");
    assert!(matches!(
        refused,
        AppError::Service(ServiceError::Conflict(ref m)) if m == "sold out"
    ));
    assert_eq!(db.sales[0].remaining_inventory, 1, "a refusal changes nothing");
    assert_eq!(db.orders.len(), 3);
}

#[test]
fn at_most_one_order_per_idempotency_key() {
    let mut db = Database::new();
    db.add_sale(sale(1, 10));
    let key = "eeee0000-0000-0000-0000-00000000000a";
    let first = fulfill(&mut db, &command(1, 1, 2, key), 1500).unwrap();
    let retry = fulfill(&mut db, &command(1, 1, 2, key), 1999).unwrap();
    assert_eq!(first.id, retry.id);
    assert_eq!(db.orders.len(), 1);
    assert_eq!(
        db.orders.iter().filter(|o| o.idempotency_key == key).count(),
        1
    );
    assert_eq!(db.sales[0].remaining_inventory, 8);
}

#[test]
fn temporal_rule_is_checked_before_inventory() {
    let mut db = Database::new();
    db.add_sale(sale(1, 1));
    let cmd = command(1, 1, 5, "eeee0000-0000-0000-0000-00000000000b");
    let early = fulfill(&mut db, &cmd, 999).expect_err("the sale has not started");
    assert!(matches!(
        early,
        AppError::Service(ServiceError::BusinessRule(ref m)) if m == "flash sale is not active"
    ));
    let late = fulfill(&mut db, &cmd, 2001).expect_err("the sale has ended");
    assert!(matches!(late, AppError::Service(ServiceError::BusinessRule(_))));
    assert_eq!(db.orders.len(), 0);
    assert_eq!(db.sales[0].remaining_inventory, 1);
}

#[test]
fn unknown_sale_is_not_found() {
    let mut db = Database::new();
    db.add_sale(sale(1, 1));
    let e = fulfill(
        &mut db,
        &command(1, 99, 1, "eeee0000-0000-0000-0000-00000000000c"),
        1500,
    )
    .expect_err("no such sale");
    match &e {
        AppError::Repo(RepoError::NotFound { entity_type }) => {
            assert_eq!(entity_type, "FlashSale")
        }
        other => panic!("expected not-found, got {:?}", other),
    }
    assert_eq!(e.message(), "FlashSale not found");
}

#[test]
fn evaluate_sale_applies_the_rules_in_order() {
    let s = sale(1, 5);
    let debited = evaluate_sale(&s, 2, 1500).expect("inside the window with stock");
    assert_eq!(debited.remaining_inventory, 3);
    assert_eq!(debited.total_inventory, 5);

    let inactive = evaluate_sale(&s, 2, 100).expect_err("outside the window");
    assert!(matches!(
        inactive,
        AppError::Service(ServiceError::BusinessRule(ref m)) if m == "flash sale is not active"
    ));

    let sold_out = evaluate_sale(&s, 6, 1500).expect_err("more than remains");
    assert!(matches!(
        sold_out,
        AppError::Service(ServiceError::Conflict(ref m)) if m == "sold out"
    ));
}

#[test]
fn purchase_debits_and_confirms() {
    let mut db = Database::new();
    db.add_sale(sale(2, 4));
    let resp = create_purchase(
        &mut db,
        &PurchaseRequest { flash_sale_id: 2, quantity: 3 },
        500,
        900,
        "ffff0000-0000-0000-0000-000000000001".to_string(),
        1500,
    )
    .expect("stock is there");
    assert_eq!(resp.order_id, 900);
    assert_eq!(resp.status, "CONFIRMED");
    assert_eq!(db.sales[0].remaining_inventory, 1);
    assert_eq!(db.orders.len(), 1);
    assert_eq!(db.orders[0].user_id, 500);
}

#[test]
fn purchase_rejects_missing_sale_and_sold_out_and_bad_quantity() {
    let mut db = Database::new();
    db.add_sale(sale(2, 2));

    let missing = create_purchase(
        &mut db,
        &PurchaseRequest { flash_sale_id: 9, quantity: 1 },
        1,
        2,
        "ffff0000-0000-0000-0000-000000000002".to_string(),
        1500,
    )
    .expect_err("no such sale");
    assert_eq!(missing.status, 404);
    assert_eq!(missing.message, "flash sale not found");

    let sold_out = create_purchase(
        &mut db,
        &PurchaseRequest { flash_sale_id: 2, quantity: 3 },
        1,
        3,
        "ffff0000-0000-0000-0000-000000000003".to_string(),
        1500,
    )
    .expect_err("more than remains");
    assert_eq!(sold_out.status, 409);
    assert_eq!(sold_out.message, "sold out");

    let bad_quantity = create_purchase(
        &mut db,
        &PurchaseRequest { flash_sale_id: 2, quantity: 0 },
        1,
        4,
        "ffff0000-0000-0000-0000-000000000004".to_string(),
        1500,
    )
    .expect_err("zero quantity");
    assert_eq!(bad_quantity.status, 400);
    assert_eq!(bad_quantity.code, "INVALID_ORDER_QUANTITY");

    assert_eq!(db.orders.len(), 0);
    assert_eq!(db.sales[0].remaining_inventory, 2);
}

#[test]
fn purchase_rejects_a_reused_idempotency_key() {
    let mut db = Database::new();
    db.add_sale(sale(2, 5));
    let key = "ffff0000-0000-0000-0000-000000000005";
    create_purchase(
        &mut db,
        &PurchaseRequest { flash_sale_id: 2, quantity: 1 },
        1,
        10,
        key.to_string(),
        1500,
    )
    .unwrap();
    let dup = create_purchase(
        &mut db,
        &PurchaseRequest { flash_sale_id: 2, quantity: 1 },
        1,
        11,
        key.to_string(),
        1500,
    )
    .expect_err("the unique key constraint holds");
    assert_eq!(dup.status, 409);
    assert_eq!(dup.code, "CONFLICT");
    assert_eq!(db.orders.len(), 1);
    assert_eq!(db.sales[0].remaining_inventory, 4);
}

#[test]
fn five_single_unit_orders_against_three_units_place_exactly_three() {
    let mut db = Database::new();
    db.add_sale(sale(1, 3));
    let mut placed = 0;
    let mut sold_out = 0;
    for n in 0..5u128 {
        let key = format!("eeee0000-0000-0000-0000-0000000001{:02}", n);
        match fulfill(&mut db, &command(100 + n, 1, 1, &key), 1500) {
            Ok(order) => {
                assert_eq!(order.status, OrderStatus::Confirmed);
                placed += 1;
            }
            Err(AppError::Service(ServiceError::Conflict(m))) => {
                assert_eq!(m, "sold out");
                sold_out += 1;
            }
            Err(other) => panic!("unexpected error {:?}", other),
        }
    }
    assert_eq!(placed, 3);
    assert_eq!(sold_out, 2);
    assert_eq!(db.sales[0].remaining_inventory, 0);
    assert_eq!(db.orders.len(), 3);
}

#[test]
fn only_serialization_failures_are_retried_and_only_three_times() {
    let serialization = AppError::Repo(RepoError::SerializationFailure);
    assert_eq!(MAX_FULFILLMENT_ATTEMPTS, 3);
    assert!(should_retry(&serialization, 0));
    assert!(should_retry(&serialization, 2));
    assert!(!should_retry(&serialization, 3));
    let conflict = AppError::Service(ServiceError::Conflict("sold out".to_string()));
    assert!(!should_retry(&conflict, 0));
    let not_found = AppError::Repo(RepoError::NotFound { entity_type: "Order".to_string() });
    assert!(!should_retry(&not_found, 0));

    let race = AppError::Repo(RepoError::Conflict {
        constraint: "orders_idempotency_key_key".to_string(),
    });
    assert!(is_idempotency_race(&race));
    assert!(!is_idempotency_race(&serialization));
    assert!(!is_idempotency_race(&conflict));

    assert!(retry_fulfillment(&serialization, 1));
    assert!(retry_fulfillment(&race, 2));
    assert!(!retry_fulfillment(&serialization, 3));
    assert!(!retry_fulfillment(&race, 3));
    assert!(!retry_fulfillment(&conflict, 0));
    assert!(!retry_fulfillment(&not_found, 1));
}
