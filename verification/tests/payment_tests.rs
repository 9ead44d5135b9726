use payment_service::order::{OrderDto, OrderStatus};
use payment_service::payment::{
    check_eligibility, complete_payment, error_response, evaluate_withdrawal, AuthContext,
    PaymentError, WithdrawalOutcome,
};
use payment_service::repository::OrderRepository;

fn dto(subtotal: i32) -> OrderDto {
    OrderDto {
        supermarket_id: 3,
        product_name: String::from("rice"),
        subtotal,
        quantity: 1,
    }
}

fn auth(user_id: i32) -> AuthContext {
    AuthContext {
        user_id,
        token: String::from("user-7-bearer-token"),
    }
}

#[test]
fn create_assigns_ids_and_waiting_payment() {
    let mut repo = OrderRepository::new();
    let first = repo.create(dto(500), 7, 100);
    let second = repo.create(dto(200), 7, 101);
    assert_eq!(first.id, 1);
    assert_eq!(second.id, 2);
    assert_eq!(first.status, OrderStatus::WaitingPayment);
    assert_eq!(first.user_id, 7);
    assert_eq!(first.subtotal, 500);
    assert_eq!(first.created_at, 100);
}

#[test]
fn find_is_scoped_by_owner() {
    let mut repo = OrderRepository::new();
    let order = repo.create(dto(500), 7, 100);
    assert!(repo.find(order.id, 7).is_some());
    // Wrong owner answers exactly like an absent id.
    assert!(repo.find(order.id, 8).is_none());
    assert!(repo.find(99, 7).is_none());
}

#[test]
fn find_all_lists_only_the_callers_orders() {
    let mut repo = OrderRepository::new();
    repo.create(dto(500), 7, 100);
    repo.create(dto(200), 8, 101);
    repo.create(dto(300), 7, 102);
    let mine = repo.find_all(7);
    assert_eq!(mine.len(), 2);
    assert_eq!(mine[0].subtotal, 500);
    assert_eq!(mine[1].subtotal, 300);
    assert_eq!(repo.find_all(9).len(), 0);
}

#[test]
fn update_status_changes_only_the_status() {
    let mut repo = OrderRepository::new();
    let order = repo.create(dto(500), 7, 100);
    let updated = repo.update_status(order.id, 7, OrderStatus::Shipped).unwrap();
    assert_eq!(updated.status, OrderStatus::Shipped);
    assert_eq!(updated.subtotal, 500);
    assert_eq!(updated.product_name, "rice");
    let stored = repo.find(order.id, 7).unwrap();
    assert_eq!(stored.status, OrderStatus::Shipped);
    // Scoped like find: the wrong owner mutates nothing.
    assert!(repo.update_status(order.id, 8, OrderStatus::Paid).is_none());
    assert_eq!(repo.find(order.id, 7).unwrap().status, OrderStatus::Shipped);
}

#[test]
fn pay_success_records_paid_and_withdraws_once() {
    let mut repo = OrderRepository::new();
    let order = repo.create(dto(500), 7, 100);
    assert_eq!(order.id, 1);
    let run = repo.pay(1, auth(7), WithdrawalOutcome::Response { success: true });
    let paid = run.result.unwrap();
    assert_eq!(paid.id, 1);
    assert_eq!(paid.status, OrderStatus::Paid);
    let request = run.request.expect("a single withdrawal must have been issued");
    assert_eq!(request.amount, 500);
    assert_eq!(request.token, "user-7-bearer-token");
    assert_eq!(request.transaction_type, 1);
    assert_eq!(repo.find(1, 7).unwrap().status, OrderStatus::Paid);
    // A retry is turned away before any second withdrawal.
    let retry = repo.pay(1, auth(7), WithdrawalOutcome::Response { success: true });
    assert_eq!(retry.result.unwrap_err(), PaymentError::InvalidState);
    assert!(retry.request.is_none());
}

#[test]
fn pay_transport_failure_leaves_order_untouched() {
    let mut repo = OrderRepository::new();
    repo.create(dto(500), 7, 100);
    let run = repo.pay(1, auth(7), WithdrawalOutcome::TransportFailure);
    assert_eq!(run.result.unwrap_err(), PaymentError::PaymentRejected);
    // The withdrawal was attempted, but the stored record is unchanged.
    assert!(run.request.is_some());
    assert_eq!(repo.find(1, 7).unwrap().status, OrderStatus::WaitingPayment);
}

#[test]
fn pay_declined_withdrawal_leaves_order_untouched() {
    let mut repo = OrderRepository::new();
    repo.create(dto(500), 7, 100);
    let run = repo.pay(1, auth(7), WithdrawalOutcome::Response { success: false });
    assert_eq!(run.result.unwrap_err(), PaymentError::PaymentRejected);
    assert_eq!(repo.find(1, 7).unwrap().status, OrderStatus::WaitingPayment);
}

#[test]
fn pay_already_paid_makes_no_remote_call() {
    let mut repo = OrderRepository::new();
    repo.create(dto(500), 7, 100);
    repo.update_status(1, 7, OrderStatus::Paid);
    let run = repo.pay(1, auth(7), WithdrawalOutcome::Response { success: true });
    assert_eq!(run.result.unwrap_err(), PaymentError::InvalidState);
    assert!(run.request.is_none());
}

#[test]
fn pay_rejects_every_non_waiting_state_without_withdrawal() {
    for status in [OrderStatus::Paid, OrderStatus::Shipped, OrderStatus::Delivered] {
        let mut repo = OrderRepository::new();
        repo.create(dto(500), 7, 100);
        repo.update_status(1, 7, status);
        let run = repo.pay(1, auth(7), WithdrawalOutcome::Response { success: true });
        assert_eq!(run.result.unwrap_err(), PaymentError::InvalidState);
        assert!(run.request.is_none());
        assert_eq!(repo.find(1, 7).unwrap().status, status);
    }
}

#[test]
fn pay_foreign_order_reads_as_not_found() {
    let mut repo = OrderRepository::new();
    repo.create(dto(500), 7, 100);
    let run = repo.pay(1, auth(8), WithdrawalOutcome::Response { success: true });
    assert_eq!(run.result.unwrap_err(), PaymentError::OrderNotFound);
    assert!(run.request.is_none());
    let absent = repo.pay(99, auth(7), WithdrawalOutcome::Response { success: true });
    assert_eq!(absent.result.unwrap_err(), PaymentError::OrderNotFound);
    assert!(absent.request.is_none());
}

#[test]
fn eligibility_decisions() {
    assert_eq!(
        check_eligibility(None).unwrap_err(),
        PaymentError::OrderNotFound
    );
    let mut repo = OrderRepository::new();
    let order = repo.create(dto(500), 7, 100);
    let eligible = check_eligibility(Some(order)).unwrap();
    assert_eq!(eligible.id, 1);
    let paid = repo.update_status(1, 7, OrderStatus::Paid).unwrap();
    assert_eq!(
        check_eligibility(Some(paid)).unwrap_err(),
        PaymentError::InvalidState
    );
}

#[test]
fn withdrawal_evaluation() {
    assert!(evaluate_withdrawal(&WithdrawalOutcome::Response { success: true }).is_ok());
    assert_eq!(
        evaluate_withdrawal(&WithdrawalOutcome::Response { success: false }).unwrap_err(),
        PaymentError::PaymentRejected
    );
    assert_eq!(
        evaluate_withdrawal(&WithdrawalOutcome::TransportFailure).unwrap_err(),
        PaymentError::PaymentRejected
    );
}

#[test]
fn failed_status_write_is_a_persistence_error() {
    // Withdrawal succeeded but the row vanished before the write:
    // never reported as success.
    assert_eq!(
        complete_payment(None).unwrap_err(),
        PaymentError::PersistenceError
    );
    let mut repo = OrderRepository::new();
    let order = repo.create(dto(500), 7, 100);
    assert_eq!(complete_payment(Some(order)).unwrap().id, 1);
}

#[test]
fn error_kinds_map_to_user_facing_responses() {
    assert_eq!(PaymentError::OrderNotFound.response().status_code, 404);
    assert_eq!(PaymentError::InvalidState.response().status_code, 409);
    assert_eq!(PaymentError::PaymentRejected.response().status_code, 402);
    assert_eq!(PaymentError::PersistenceError.response().status_code, 500);
    let r = error_response(404, "Order not found");
    assert_eq!(r.status_code, 404);
    assert_eq!(r.message, "Order not found");
}
