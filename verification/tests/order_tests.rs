use payment_service::order::{order_from_row, OrderRow, OrderStatus};
use payment_service::payment::TransactionType;

#[test]
fn status_canonical_strings() {
    assert_eq!(OrderStatus::WaitingPayment.as_str(), "Waiting Payment");
    assert_eq!(OrderStatus::Paid.as_str(), "Paid");
    assert_eq!(OrderStatus::Shipped.as_str(), "Shipped");
    assert_eq!(OrderStatus::Delivered.as_str(), "Delivered");
}

#[test]
fn status_from_str_round_trip() {
    let all = [
        OrderStatus::WaitingPayment,
        OrderStatus::Paid,
        OrderStatus::Shipped,
        OrderStatus::Delivered,
    ];
    for status in all {
        assert_eq!(OrderStatus::from_str(status.as_str()), Ok(status));
    }
}

#[test]
fn status_from_str_rejects_unknown() {
    assert_eq!(OrderStatus::from_str(""), Err(()));
    assert_eq!(OrderStatus::from_str("paid"), Err(()));
    assert_eq!(OrderStatus::from_str("Cancelled"), Err(()));
    assert_eq!(OrderStatus::from_str("Waiting  Payment"), Err(()));
}

#[test]
fn status_lenient_decode_defaults_to_waiting_payment() {
    assert_eq!(
        OrderStatus::from_str_or_default("Cancelled"),
        OrderStatus::WaitingPayment
    );
    assert_eq!(OrderStatus::from_str_or_default("Paid"), OrderStatus::Paid);
    assert_eq!(
        OrderStatus::from_str_or_default("Delivered"),
        OrderStatus::Delivered
    );
}

#[test]
fn row_decoding_keeps_fields() {
    let row = OrderRow {
        id: 11,
        user_id: 7,
        supermarket_id: 3,
        product_name: String::from("rice"),
        subtotal: 500,
        quantity: Some(4),
        status: String::from("Shipped"),
        created_at: 1_700_000_000,
    };
    let order = order_from_row(row);
    assert_eq!(order.id, 11);
    assert_eq!(order.user_id, 7);
    assert_eq!(order.supermarket_id, 3);
    assert_eq!(order.product_name, "rice");
    assert_eq!(order.subtotal, 500);
    assert_eq!(order.quantity, 4);
    assert_eq!(order.status, OrderStatus::Shipped);
    assert_eq!(order.created_at, 1_700_000_000);
}

#[test]
fn row_decoding_applies_defensive_defaults() {
    let row = OrderRow {
        id: 1,
        user_id: 2,
        supermarket_id: 3,
        product_name: String::from("milk"),
        subtotal: 100,
        quantity: None,
        status: String::from("not a status"),
        created_at: 0,
    };
    let order = order_from_row(row);
    assert_eq!(order.quantity, 0);
    assert_eq!(order.status, OrderStatus::WaitingPayment);
}

#[test]
fn transaction_type_wire_codes() {
    assert_eq!(TransactionType::Deposit.to_i32(), 0);
    assert_eq!(TransactionType::Withdraw.to_i32(), 1);
}
