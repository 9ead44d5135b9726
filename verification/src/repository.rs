//! The order store and the end-to-end pay-order workflow over it.
//!
//! `OrderRepository` is the record of orders: lookups and the status
//! write are scoped by both the order id and the owning user id, so an
//! order of another user is indistinguishable from one that does not
//! exist. `pay` runs the whole payment transition against this store,
//! taking the wallet service's answer as a value and reporting whether
//! a withdrawal request was issued at all.

use vstd::prelude::*;
use crate::order::{Order, OrderDto, OrderStatus};
use crate::payment::{
    check_eligibility, complete_payment, evaluate_withdrawal, withdrawal_accepted,
    withdrawal_request, AuthContext, PaymentError, TransactionType, UpdateBalanceRequest,
    WithdrawalOutcome,
};

verus! {

/// An order answers a scoped lookup when both the order id and the
/// owning user id agree.
pub open spec fn order_matches(o: Order, order_id: i32, user_id: i32) -> bool {
    o.id == order_id && o.user_id == user_id
}

/// No two records share an order id.
pub open spec fn unique_ids(orders: Seq<Order>) -> bool {
    forall|i: int, j: int|
        0 <= i < j < orders.len() ==> orders[i].id != orders[j].id
}

/// Some record answers the scoped lookup.
pub open spec fn contains_order(orders: Seq<Order>, order_id: i32, user_id: i32) -> bool {
    exists|i: int| 0 <= i < orders.len() && order_matches(orders[i], order_id, user_id)
}

/// The position of the record answering the scoped lookup; with unique
/// ids there is at most one.
pub open spec fn order_index(orders: Seq<Order>, order_id: i32, user_id: i32) -> int {
    choose|i: int| 0 <= i < orders.len() && order_matches(orders[i], order_id, user_id)
}

/// What a scoped lookup returns: the unique record owned by this user
/// under this id, or nothing.
pub open spec fn lookup(orders: Seq<Order>, order_id: i32, user_id: i32) -> Option<Order> {
    if contains_order(orders, order_id, user_id) {
        Some(orders[order_index(orders, order_id, user_id)])
    } else {
        None
    }
}

/// The same record with only its status replaced: status is the one
/// field mutated after creation.
pub open spec fn with_status(o: Order, status: OrderStatus) -> Order {
    Order { status, ..o }
}

/// The table after a scoped status write: the matching record's status
/// is replaced, everything else is untouched; with no match the table
/// is unchanged.
pub open spec fn updated_orders(
    orders: Seq<Order>,
    order_id: i32,
    user_id: i32,
    status: OrderStatus,
) -> Seq<Order> {
    if contains_order(orders, order_id, user_id) {
        let i = order_index(orders, order_id, user_id);
        orders.update(i, with_status(orders[i], status))
    } else {
        orders
    }
}

/// The records a user may list: exactly those the user owns.
pub open spec fn owned_by(user_id: i32) -> spec_fn(Order) -> bool {
    |o: Order| o.user_id == user_id
}

/// The result the pay-order workflow owes on a given table: an absent
/// or foreign order fails as `OrderNotFound`; one not awaiting payment
/// as `InvalidState`; an unaccepted withdrawal as `PaymentRejected`;
/// otherwise the order is returned with status `Paid`.
pub open spec fn pay_result(
    orders: Seq<Order>,
    order_id: i32,
    user_id: i32,
    accepted: bool,
) -> Result<Order, PaymentError> {
    match lookup(orders, order_id, user_id) {
        Some(o) => if o.status != OrderStatus::WaitingPayment {
            Err(PaymentError::InvalidState)
        } else if !accepted {
            Err(PaymentError::PaymentRejected)
        } else {
            Ok(with_status(o, OrderStatus::Paid))
        },
        None => Err(PaymentError::OrderNotFound),
    }
}

/// Whether the workflow reaches the remote withdrawal at all: only
/// when the scoped lookup finds an order awaiting payment.
pub open spec fn pay_invokes_withdrawal(orders: Seq<Order>, order_id: i32, user_id: i32) -> bool {
    match lookup(orders, order_id, user_id) {
        Some(o) => o.status == OrderStatus::WaitingPayment,
        None => false,
    }
}

/// The table after the workflow: changed only when the workflow
/// succeeds, and then only by the one status transition.
pub open spec fn pay_store(
    orders: Seq<Order>,
    order_id: i32,
    user_id: i32,
    accepted: bool,
) -> Seq<Order> {
    if pay_result(orders, order_id, user_id, accepted) is Ok {
        updated_orders(orders, order_id, user_id, OrderStatus::Paid)
    } else {
        orders
    }
}

/// What one run of the workflow reports: the outcome handed to the
/// caller, and the withdrawal request that went to the wallet service
/// — `None` when the remote side was never contacted.
pub struct PayRun {
    pub result: Result<Order, PaymentError>,
    pub request: Option<UpdateBalanceRequest>,
}

/// The order store: records with unique, store-assigned ids.
pub struct OrderRepository {
    pub orders: Vec<Order>,
    pub next_id: i32,
}

impl OrderRepository {
    /// Store invariant: ids are unique and below the next free id, and
    /// every record is well-formed.
    pub open spec fn wf(self) -> bool {
        &&& unique_ids(self.orders@)
        &&& forall|i: int|
            0 <= i < self.orders@.len() ==> (#[trigger] self.orders@[i]).id < self.next_id
        &&& forall|i: int|
            0 <= i < self.orders@.len() ==> (#[trigger] self.orders@[i]).wf()
    }

    /// An empty store; ids start at 1.
    pub fn new() -> (r: OrderRepository)
        ensures
            r.wf(),
            r.orders@.len() == 0,
            r.next_id == 1,
    {
        OrderRepository { orders: Vec::new(), next_id: 1 }
    }

    /// Record a new order: it gets the next free id, the requesting
    /// user as owner, status `WaitingPayment`, and the given creation
    /// instant. Nothing else in the table moves.
    pub fn create(&mut self, dto: OrderDto, user_id: i32, created_at: i64) -> (o: Order)
        requires
            old(self).wf(),
            old(self).next_id < i32::MAX,
            dto.wf(),
        ensures
            final(self).wf(),
            o.id == old(self).next_id,
            o.user_id == user_id,
            o.supermarket_id == dto.supermarket_id,
            o.product_name == dto.product_name,
            o.subtotal == dto.subtotal,
            o.quantity == dto.quantity,
            o.status == OrderStatus::WaitingPayment,
            o.created_at == created_at,
            final(self).orders@ == old(self).orders@.push(o),
            final(self).next_id == old(self).next_id + 1,
    {
        let order = Order {
            id: self.next_id,
            user_id,
            supermarket_id: dto.supermarket_id,
            product_name: dto.product_name,
            subtotal: dto.subtotal,
            quantity: dto.quantity,
            status: OrderStatus::WaitingPayment,
            created_at,
        };
        let result = order.clone();
        self.orders.push(order);
        self.next_id = self.next_id + 1;
        result
    }

    /// Scoped lookup: the record under this id owned by this user, or
    /// nothing — a foreign order and an absent one answer identically.
    pub fn find(&self, order_id: i32, user_id: i32) -> (r: Option<Order>)
        requires
            self.wf(),
        ensures
            r == lookup(self.orders@, order_id, user_id),
    {
        let mut i: usize = 0;
        while i < self.orders.len()
            invariant
                self.wf(),
                i <= self.orders.len(),
                forall|k: int| 0 <= k < i ==> !order_matches(self.orders@[k], order_id, user_id),
            decreases self.orders.len() - i,
        {
            if self.orders[i].id == order_id && self.orders[i].user_id == user_id {
                let found = self.orders[i].clone();
                proof {
                    assert(order_matches(self.orders@[i as int], order_id, user_id));
                    assert(contains_order(self.orders@, order_id, user_id));
                    let j = order_index(self.orders@, order_id, user_id);
                    assert(0 <= j < self.orders@.len());
                    assert(order_matches(self.orders@[j], order_id, user_id));
                    assert(j == i as int);
                }
                return Some(found);
            }
            i = i + 1;
        }
        None
    }

    /// Every order of this user, in table (creation) order.
    pub fn find_all(&self, user_id: i32) -> (r: Vec<Order>)
        ensures
            r@ == self.orders@.filter(owned_by(user_id)),
    {
        let mut result: Vec<Order> = Vec::new();
        let mut i: usize = 0;
        while i < self.orders.len()
            invariant
                i <= self.orders.len(),
                result@ == self.orders@.take(i as int).filter(owned_by(user_id)),
            decreases self.orders.len() - i,
        {
            proof {
                reveal(Seq::filter);
                assert(self.orders@.take(i as int + 1).drop_last() =~= self.orders@.take(i as int));
                assert(self.orders@.take(i as int + 1).last() == self.orders@[i as int]);
            }
            if self.orders[i].user_id == user_id {
                result.push(self.orders[i].clone());
            }
            i = i + 1;
        }
        proof {
            assert(self.orders@.take(self.orders@.len() as int) =~= self.orders@);
        }
        result
    }

    /// The sole status mutator, scoped exactly like `find`: it replaces
    /// the status of the one matching record and returns the updated
    /// record, touching nothing else; with no match the store is
    /// unchanged and nothing is returned.
    pub fn update_status(&mut self, order_id: i32, user_id: i32, status: OrderStatus) -> (r:
        Option<Order>)
        requires
            old(self).wf(),
        ensures
            final(self).wf(),
            final(self).next_id == old(self).next_id,
            final(self).orders@ == updated_orders(old(self).orders@, order_id, user_id, status),
            r == match lookup(old(self).orders@, order_id, user_id) {
                Some(o) => Some(with_status(o, status)),
                None => None::<Order>,
            },
    {
        let mut i: usize = 0;
        while i < self.orders.len()
            invariant
                *self == *old(self),
                old(self).wf(),
                i <= self.orders.len(),
                forall|k: int| 0 <= k < i ==> !order_matches(self.orders@[k], order_id, user_id),
            decreases self.orders.len() - i,
        {
            if self.orders[i].id == order_id && self.orders[i].user_id == user_id {
                let mut updated = self.orders[i].clone();
                updated.status = status;
                let returned = updated.clone();
                proof {
                    assert(order_matches(old(self).orders@[i as int], order_id, user_id));
                    assert(contains_order(old(self).orders@, order_id, user_id));
                    let j = order_index(old(self).orders@, order_id, user_id);
                    assert(0 <= j < old(self).orders@.len());
                    assert(order_matches(old(self).orders@[j], order_id, user_id));
                    assert(j == i as int);
                    assert(updated == with_status(old(self).orders@[i as int], status));
                }
                self.orders[i] = updated;
                proof {
                    let before = old(self).orders@;
                    let after = self.orders@;
                    assert(after == before.update(
                        i as int,
                        with_status(before[i as int], status),
                    ));
                    assert forall|a: int| 0 <= a < after.len() implies (#[trigger] after[a]).id
                        == before[a].id && after[a].wf() == before[a].wf() by {
                        if a != i as int {
                            assert(after[a] == before[a]);
                        }
                    }
                    assert forall|a: int, b: int| 0 <= a < b < after.len() implies after[a].id
                        != after[b].id by {
                        assert(before[a].id != before[b].id);
                    }
                }
                return Some(returned);
            }
            i = i + 1;
        }
        None
    }

    /// The pay-order workflow, end to end, against this store.
    ///
    /// It reads the order scoped to `(order_id, auth.user_id)`, checks
    /// that it is awaiting payment, and only then forms the withdrawal
    /// of exactly the order's subtotal under the caller's token; the
    /// wallet service's answer decides whether the `Paid` transition is
    /// recorded. The report says what the caller is told and whether —
    /// and with what content — the remote side was contacted: nothing
    /// is sent for an absent, foreign, or already-processed order, and
    /// the store changes only on full success.
    pub fn pay(&mut self, order_id: i32, auth: AuthContext, outcome: WithdrawalOutcome) -> (run:
        PayRun)
        requires
            old(self).wf(),
        ensures
            final(self).wf(),
            final(self).next_id == old(self).next_id,
            final(self).orders@ == pay_store(
                old(self).orders@,
                order_id,
                auth.user_id,
                withdrawal_accepted(outcome),
            ),
            run.result == pay_result(
                old(self).orders@,
                order_id,
                auth.user_id,
                withdrawal_accepted(outcome),
            ),
            (run.request is Some) == pay_invokes_withdrawal(
                old(self).orders@,
                order_id,
                auth.user_id,
            ),
            run.request is Some ==> run.request->0.amount == lookup(
                old(self).orders@,
                order_id,
                auth.user_id,
            )->0.subtotal,
            run.request is Some ==> run.request->0.token == auth.token,
            run.request is Some ==> run.request->0.transaction_type
                == TransactionType::Withdraw.code(),
    {
        let found = self.find(order_id, auth.user_id);
        let order = match check_eligibility(found) {
            Ok(order) => order,
            Err(e) => {
                return PayRun { result: Err(e), request: None };
            },
        };
        let request = withdrawal_request(&order, auth.token);
        match evaluate_withdrawal(&outcome) {
            Ok(_) => {},
            Err(e) => {
                return PayRun { result: Err(e), request: Some(request) };
            },
        }
        let written = self.update_status(order_id, auth.user_id, OrderStatus::Paid);
        match complete_payment(written) {
            Ok(paid) => PayRun { result: Ok(paid), request: Some(request) },
            Err(e) => PayRun { result: Err(e), request: Some(request) },
        }
    }
}

/// An order that is not awaiting payment is rejected as
/// `InvalidState`, the wallet service is never contacted, and the
/// store is left as it was — whatever the wallet would have answered.
pub proof fn lemma_no_withdrawal_unless_waiting(
    orders: Seq<Order>,
    order_id: i32,
    user_id: i32,
    accepted: bool,
)
    requires
        lookup(orders, order_id, user_id) is Some,
        lookup(orders, order_id, user_id)->0.status != OrderStatus::WaitingPayment,
    ensures
        pay_result(orders, order_id, user_id, accepted) == Err::<Order, PaymentError>(
            PaymentError::InvalidState,
        ),
        !pay_invokes_withdrawal(orders, order_id, user_id),
        pay_store(orders, order_id, user_id, accepted) == orders,
{
}

/// An order belonging to another user answers exactly like one that
/// does not exist: the lookup is empty, paying fails as
/// `OrderNotFound`, no withdrawal is issued, and nothing changes — so
/// nothing distinguishes "wrong owner" from "no such id".
pub proof fn lemma_cross_tenant_isolation(
    orders: Seq<Order>,
    order_id: i32,
    user_id: i32,
    accepted: bool,
)
    requires
        forall|i: int|
            0 <= i < orders.len() && (#[trigger] orders[i]).id == order_id ==> orders[i].user_id
                != user_id,
    ensures
        lookup(orders, order_id, user_id) is None,
        pay_result(orders, order_id, user_id, accepted) == Err::<Order, PaymentError>(
            PaymentError::OrderNotFound,
        ),
        !pay_invokes_withdrawal(orders, order_id, user_id),
        pay_store(orders, order_id, user_id, accepted) == orders,
{
    if contains_order(orders, order_id, user_id) {
        let i = choose|i: int|
            0 <= i < orders.len() && order_matches(orders[i], order_id, user_id);
        assert(orders[i].user_id != user_id);
        assert(false);
    }
}

/// A withdrawal that is not accepted — declined or lost in transport —
/// leaves the stored status of every order exactly as it was, and the
/// caller is told `PaymentRejected` whenever the withdrawal had been
/// issued at all.
pub proof fn lemma_rejected_withdrawal_changes_nothing(
    orders: Seq<Order>,
    order_id: i32,
    user_id: i32,
)
    ensures
        pay_store(orders, order_id, user_id, false) == orders,
        pay_invokes_withdrawal(orders, order_id, user_id) ==> pay_result(
            orders,
            order_id,
            user_id,
            false,
        ) == Err::<Order, PaymentError>(PaymentError::PaymentRejected),
{
}

/// The only transition this workflow ever performs: a pay run leaves
/// every record as it was, except that at most one moves from
/// `WaitingPayment` to `Paid` — no other field and no other state
/// change is reachable from here.
pub proof fn lemma_only_waiting_to_paid(
    orders: Seq<Order>,
    order_id: i32,
    user_id: i32,
    accepted: bool,
)
    ensures
        pay_store(orders, order_id, user_id, accepted).len() == orders.len(),
        forall|k: int|
            0 <= k < orders.len() ==> #[trigger] pay_store(orders, order_id, user_id, accepted)[k]
                == orders[k] || (orders[k].status == OrderStatus::WaitingPayment && pay_store(
                orders,
                order_id,
                user_id,
                accepted,
            )[k] == with_status(orders[k], OrderStatus::Paid)),
{
    let after = pay_store(orders, order_id, user_id, accepted);
    if pay_result(orders, order_id, user_id, accepted) is Ok {
        let i = order_index(orders, order_id, user_id);
        assert(orders[i].status == OrderStatus::WaitingPayment);
        assert(after == orders.update(i, with_status(orders[i], OrderStatus::Paid)));
        assert forall|k: int| 0 <= k < orders.len() && k != i implies #[trigger] after[k]
            == orders[k] by {}
    }
}

/// Idempotence of a completed payment: once a pay run has fully
/// succeeded — withdrawal accepted and `Paid` recorded — any repeat on
/// the same order is turned away as `InvalidState` before the wallet
/// service is contacted, and the store stays put: there is never a
/// second withdrawal.
pub proof fn lemma_pay_idempotent(
    orders: Seq<Order>,
    order_id: i32,
    user_id: i32,
    retry_accepted: bool,
)
    requires
        unique_ids(orders),
        pay_result(orders, order_id, user_id, true) is Ok,
    ensures
        pay_result(
            pay_store(orders, order_id, user_id, true),
            order_id,
            user_id,
            retry_accepted,
        ) == Err::<Order, PaymentError>(PaymentError::InvalidState),
        !pay_invokes_withdrawal(pay_store(orders, order_id, user_id, true), order_id, user_id),
        pay_store(
            pay_store(orders, order_id, user_id, true),
            order_id,
            user_id,
            retry_accepted,
        ) == pay_store(orders, order_id, user_id, true),
{
    let i = order_index(orders, order_id, user_id);
    let after = pay_store(orders, order_id, user_id, true);
    assert(after == orders.update(i, with_status(orders[i], OrderStatus::Paid)));
    assert(order_matches(after[i], order_id, user_id));
    assert(contains_order(after, order_id, user_id));
    let j = order_index(after, order_id, user_id);
    assert(0 <= j < after.len());
    assert(order_matches(after[j], order_id, user_id));
    assert forall|a: int| 0 <= a < after.len() implies (#[trigger] after[a]).id == orders[a].id by {
        if a != i {
            assert(after[a] == orders[a]);
        }
    }
    assert(j == i);
    assert(lookup(after, order_id, user_id) == Some(with_status(orders[i], OrderStatus::Paid)));
}

} // verus!
