//! The order record, its lifecycle states, and the canonical string
//! codec used when a status crosses a serialization boundary.

use vstd::prelude::*;
use vstd::string::StringExecFns;

verus! {

/// Lifecycle states of an order. The payment workflow performs only the
/// `WaitingPayment -> Paid` transition; the later states are written by
/// other collaborators and merely reject payment attempts here.
#[derive(Clone, Copy, Debug, PartialEq, Eq, Structural)]
pub enum OrderStatus {
    WaitingPayment,
    Paid,
    Shipped,
    Delivered,
}

impl OrderStatus {
    /// The canonical text of a status: the form stored in the database
    /// and shown to callers.
    pub open spec fn canonical(self) -> Seq<char> {
        match self {
            OrderStatus::WaitingPayment => "Waiting Payment"@,
            OrderStatus::Paid => "Paid"@,
            OrderStatus::Shipped => "Shipped"@,
            OrderStatus::Delivered => "Delivered"@,
        }
    }

    /// What decoding a stored status string yields: the unique status
    /// whose canonical text matches, if any.
    pub open spec fn decoded(s: Seq<char>) -> Option<OrderStatus> {
        if s == OrderStatus::WaitingPayment.canonical() {
            Some(OrderStatus::WaitingPayment)
        } else if s == OrderStatus::Paid.canonical() {
            Some(OrderStatus::Paid)
        } else if s == OrderStatus::Shipped.canonical() {
            Some(OrderStatus::Shipped)
        } else if s == OrderStatus::Delivered.canonical() {
            Some(OrderStatus::Delivered)
        } else {
            None
        }
    }

    /// Decoding with the documented conservative fallback: any
    /// unrecognized text degrades to `WaitingPayment` instead of
    /// failing, so a corrupt stored string never aborts a request.
    pub open spec fn decoded_or_default(s: Seq<char>) -> OrderStatus {
        match OrderStatus::decoded(s) {
            Some(status) => status,
            None => OrderStatus::WaitingPayment,
        }
    }

    /// Canonical text of this status.
    pub fn as_str(&self) -> (r: &'static str)
        ensures
            r@ == self.canonical(),
    {
        match self {
            OrderStatus::WaitingPayment => "Waiting Payment",
            OrderStatus::Paid => "Paid",
            OrderStatus::Shipped => "Shipped",
            OrderStatus::Delivered => "Delivered",
        }
    }

    /// Strict decoder: reports an unrecognized string as an error so a
    /// caller can surface it, rather than silently repairing it.
    pub fn from_str(s: &str) -> (r: Result<OrderStatus, ()>)
        ensures
            r == match OrderStatus::decoded(s@) {
                Some(status) => Ok::<OrderStatus, ()>(status),
                None => Err::<OrderStatus, ()>(()),
            },
    {
        let text = String::from_str(s);
        if text == String::from_str("Waiting Payment") {
            Ok(OrderStatus::WaitingPayment)
        } else if text == String::from_str("Paid") {
            Ok(OrderStatus::Paid)
        } else if text == String::from_str("Shipped") {
            Ok(OrderStatus::Shipped)
        } else if text == String::from_str("Delivered") {
            Ok(OrderStatus::Delivered)
        } else {
            Err(())
        }
    }

    /// Lenient decoder used when reading stored rows: unrecognized text
    /// degrades to `WaitingPayment` (see `decoded_or_default`).
    pub fn from_str_or_default(s: &str) -> (r: OrderStatus)
        ensures
            r == OrderStatus::decoded_or_default(s@),
    {
        match OrderStatus::from_str(s) {
            Ok(status) => status,
            Err(_) => OrderStatus::WaitingPayment,
        }
    }
}

/// Encoding then decoding a status yields the status back: the four
/// canonical strings are pairwise distinct, so no state is conflated
/// with another across a serialization boundary.
pub proof fn lemma_status_round_trip(status: OrderStatus)
    ensures
        OrderStatus::decoded(status.canonical()) == Some(status),
{
    reveal_strlit("Waiting Payment");
    reveal_strlit("Paid");
    reveal_strlit("Shipped");
    reveal_strlit("Delivered");
    // The four canonical strings have pairwise different lengths, so
    // none can be mistaken for another.
    assert(OrderStatus::WaitingPayment.canonical().len() == 15);
    assert(OrderStatus::Paid.canonical().len() == 4);
    assert(OrderStatus::Shipped.canonical().len() == 7);
    assert(OrderStatus::Delivered.canonical().len() == 9);
}

/// A purchase record owned by one user. `created_at` is the creation
/// instant as seconds since the Unix epoch; `subtotal` is in the
/// smallest currency unit.
#[derive(Debug)]
pub struct Order {
    pub id: i32,
    pub user_id: i32,
    pub supermarket_id: i32,
    pub product_name: String,
    pub subtotal: i32,
    pub quantity: i32,
    pub status: OrderStatus,
    pub created_at: i64,
}

impl Order {
    /// Well-formedness of a record: amounts are never negative.
    pub open spec fn wf(self) -> bool {
        self.subtotal >= 0 && self.quantity >= 0
    }
}

impl Clone for Order {
    fn clone(&self) -> (r: Self)
        ensures
            r == *self,
    {
        Order {
            id: self.id,
            user_id: self.user_id,
            supermarket_id: self.supermarket_id,
            product_name: self.product_name.clone(),
            subtotal: self.subtotal,
            quantity: self.quantity,
            status: self.status,
            created_at: self.created_at,
        }
    }
}

/// The caller-supplied part of a new order.
pub struct OrderDto {
    pub supermarket_id: i32,
    pub product_name: String,
    pub subtotal: i32,
    pub quantity: i32,
}

impl OrderDto {
    /// A submission is acceptable when its amounts are non-negative.
    pub open spec fn wf(self) -> bool {
        self.subtotal >= 0 && self.quantity >= 0
    }
}

/// One raw row of the order table, as the persistence layer hands it
/// over: quantity may be missing and the status is still its stored
/// string.
pub struct OrderRow {
    pub id: i32,
    pub user_id: i32,
    pub supermarket_id: i32,
    pub product_name: String,
    pub subtotal: i32,
    pub quantity: Option<i32>,
    pub status: String,
    pub created_at: i64,
}

/// Decode a stored row into an order, applying the two documented
/// defensive defaults: a missing quantity reads as 0 (not meaningful
/// business data) and an unrecognized status string degrades to
/// `WaitingPayment`.
pub fn order_from_row(row: OrderRow) -> (o: Order)
    ensures
        o.id == row.id,
        o.user_id == row.user_id,
        o.supermarket_id == row.supermarket_id,
        o.product_name == row.product_name,
        o.subtotal == row.subtotal,
        o.quantity == match row.quantity {
            Some(q) => q,
            None => 0,
        },
        o.status == OrderStatus::decoded_or_default(row.status@),
        o.created_at == row.created_at,
{
    let status = OrderStatus::from_str_or_default(row.status.as_str());
    let quantity = match row.quantity {
        Some(q) => q,
        None => 0,
    };
    Order {
        id: row.id,
        user_id: row.user_id,
        supermarket_id: row.supermarket_id,
        product_name: row.product_name,
        subtotal: row.subtotal,
        quantity,
        status,
        created_at: row.created_at,
    }
}

} // verus!
