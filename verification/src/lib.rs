//! Order-management core: the payment transition workflow of an order
//! service, stated and verified against a mathematical model.
//!
//! The library holds the logic that decides how an order moves through
//! its payment lifecycle: the status state machine with its canonical
//! string codec, the order record and its defensive row decoding, the
//! order store with its lookup and update contracts, and the payment
//! coordinator that validates eligibility, builds the withdrawal
//! request for the external wallet service, interprets the outcome,
//! and records the transition. All I/O (HTTP routing, the database,
//! the remote wallet call) lives outside; the functions here take the
//! outcomes of those calls as plain values.

pub mod order;
pub mod payment;
pub mod repository;
