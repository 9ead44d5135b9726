//! The payment coordinator: the decisions of the pay-order workflow.
//!
//! The workflow touches two independently failing resources — the
//! remote wallet service and the local order store — with no shared
//! transaction. Every decision between those calls is a function here,
//! from plain values to plain values: the surrounding process performs
//! the store read, the remote withdrawal and the store write, and hands
//! each outcome back.

use vstd::prelude::*;
use crate::order::{Order, OrderStatus};

verus! {

/// Direction flag of a balance movement, as the wallet service encodes
/// it on the wire.
#[derive(Clone, Copy, Debug, PartialEq, Eq, Structural)]
pub enum TransactionType {
    Deposit,
    Withdraw,
}

impl TransactionType {
    /// Wire encoding of the direction flag.
    pub open spec fn code(self) -> i32 {
        match self {
            TransactionType::Deposit => 0,
            TransactionType::Withdraw => 1,
        }
    }

    /// Wire encoding of the direction flag: `Deposit` is 0, `Withdraw`
    /// is 1.
    pub fn to_i32(&self) -> (r: i32)
        ensures
            r == self.code(),
    {
        match self {
            TransactionType::Deposit => 0,
            TransactionType::Withdraw => 1,
        }
    }
}

/// Verified caller identity: a user id and a bearer token scoped to
/// that user, produced by the authentication guard and trusted here
/// without re-verification.
pub struct AuthContext {
    pub user_id: i32,
    pub token: String,
}

/// The request sent to the wallet service to move funds: the amount,
/// the caller's bearer token, and the encoded direction flag.
#[derive(Debug)]
pub struct UpdateBalanceRequest {
    pub amount: i32,
    pub token: String,
    pub transaction_type: i32,
}

/// What came back from a remote withdrawal: either a structured answer
/// with its success flag, or a transport failure (timeout, connection
/// refused, malformed response) in which nothing is known — the funds
/// may or may not have moved.
#[derive(Clone, Copy, Debug, PartialEq, Eq, Structural)]
pub enum WithdrawalOutcome {
    Response { success: bool },
    TransportFailure,
}

/// A withdrawal counts as accepted only on a structured success
/// answer; a declined answer and a transport failure both mean the
/// status must not advance.
pub open spec fn withdrawal_accepted(outcome: WithdrawalOutcome) -> bool {
    match outcome {
        WithdrawalOutcome::Response { success } => success,
        WithdrawalOutcome::TransportFailure => false,
    }
}

/// The failure kinds of the pay-order workflow.
#[derive(Clone, Copy, Debug, PartialEq, Eq, Structural)]
pub enum PaymentError {
    /// No order with this id belongs to the requesting user.
    OrderNotFound,
    /// The order exists but is not awaiting payment.
    InvalidState,
    /// The remote withdrawal was declined or unreachable; nothing was
    /// recorded.
    PaymentRejected,
    /// The withdrawal succeeded but the status write failed: funds
    /// moved with no local record. The one acknowledged consistency
    /// hazard; must be surfaced loudly.
    PersistenceError,
}

/// What eligibility checking decides: an absent order is
/// `OrderNotFound`, one not awaiting payment is `InvalidState`, and
/// only an order in `WaitingPayment` goes forward.
pub open spec fn eligibility(found: Option<Order>) -> Result<Order, PaymentError> {
    match found {
        Some(order) => if order.status == OrderStatus::WaitingPayment {
            Ok(order)
        } else {
            Err(PaymentError::InvalidState)
        },
        None => Err(PaymentError::OrderNotFound),
    }
}

/// Step one of the workflow, after the scoped store read: decide
/// whether the order may be paid. Double-pay prevention lives here and
/// nowhere else — any status other than `WaitingPayment` is rejected
/// before the wallet service is ever contacted.
pub fn check_eligibility(found: Option<Order>) -> (r: Result<Order, PaymentError>)
    ensures
        r == eligibility(found),
{
    match found {
        Some(order) => {
            if order.status == OrderStatus::WaitingPayment {
                Ok(order)
            } else {
                Err(PaymentError::InvalidState)
            }
        },
        None => Err(PaymentError::OrderNotFound),
    }
}

/// Step two: build the withdrawal for an eligible order — exactly the
/// order's subtotal, debited (never deposited), under the caller's own
/// token.
pub fn withdrawal_request(order: &Order, token: String) -> (r: UpdateBalanceRequest)
    ensures
        r.amount == order.subtotal,
        r.token == token,
        r.transaction_type == TransactionType::Withdraw.code(),
{
    UpdateBalanceRequest {
        amount: order.subtotal,
        token,
        transaction_type: TransactionType::Withdraw.to_i32(),
    }
}

/// Step three, after the remote call: only a structured success
/// answer lets the workflow advance; a declined answer and a transport
/// failure alike become `PaymentRejected`, and the stored status is to
/// be left untouched.
pub fn evaluate_withdrawal(outcome: &WithdrawalOutcome) -> (r: Result<(), PaymentError>)
    ensures
        r is Ok <==> withdrawal_accepted(*outcome),
        !withdrawal_accepted(*outcome) ==> r == Err::<(), PaymentError>(PaymentError::PaymentRejected),
{
    match outcome {
        WithdrawalOutcome::Response { success } => {
            if *success {
                Ok(())
            } else {
                Err(PaymentError::PaymentRejected)
            }
        },
        WithdrawalOutcome::TransportFailure => Err(PaymentError::PaymentRejected),
    }
}

/// Step four, after the status write: a missing row means the funds
/// already moved but the local record could not be updated —
/// `PersistenceError`, never reported as success. The only success
/// return of the workflow is "withdrawal confirmed and status
/// persisted".
pub fn complete_payment(written: Option<Order>) -> (r: Result<Order, PaymentError>)
    ensures
        r == match written {
            Some(order) => Ok::<Order, PaymentError>(order),
            None => Err::<Order, PaymentError>(PaymentError::PersistenceError),
        },
{
    match written {
        Some(order) => Ok(order),
        None => Err(PaymentError::PersistenceError),
    }
}

/// A structured user-facing error: an HTTP-like status code and a
/// message that leaks no internal detail.
pub struct ErrorResponse {
    pub status_code: u16,
    pub message: &'static str,
}

/// Build a structured error from a code and a message.
pub fn error_response(status_code: u16, message: &'static str) -> (r: ErrorResponse)
    ensures
        r.status_code == status_code,
        r.message == message,
{
    ErrorResponse { status_code, message }
}

impl PaymentError {
    /// The user-facing mapping of each failure kind: a not-found order
    /// is a 404, an unpayable one a conflict, a declined withdrawal a
    /// payment failure the caller may retry, and a failed commit after
    /// a successful withdrawal a loud server error.
    pub fn response(&self) -> (r: ErrorResponse)
        ensures
            r.status_code == match *self {
                PaymentError::OrderNotFound => 404u16,
                PaymentError::InvalidState => 409u16,
                PaymentError::PaymentRejected => 402u16,
                PaymentError::PersistenceError => 500u16,
            },
    {
        match self {
            PaymentError::OrderNotFound => error_response(404, "Order not found"),
            PaymentError::InvalidState => error_response(409, "Order is not awaiting payment"),
            PaymentError::PaymentRejected => error_response(402, "Payment was rejected"),
            PaymentError::PersistenceError => error_response(
                500,
                "Payment was taken but the order could not be updated",
            ),
        }
    }
}

} // verus!
