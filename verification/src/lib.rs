//! A typed client library for a freight-booking HTTP API.
//!
//! The library models the wire contract of the booking service: the
//! domain entities that travel in request and response bodies, the
//! closed-but-extensible booking-status vocabulary, and the client's
//! authentication state machine.  Transport and JSON plumbing are the
//! caller's concern; every function here is pure and verified.

use vstd::prelude::*;

pub mod account;
pub mod booking;
pub mod client;
pub mod money;
pub mod product;
pub mod text;

pub use account::Account;
pub use account::AuthenticateWith;
pub use booking::BookingRequest;
pub use booking::BookingResponse;
pub use booking::BookingStatus;
pub use booking::Timestamp;
pub use client::Client;
pub use client::Client as TransdirectClient;
pub use money::Money;
pub use product::Product;
pub use product::Service;

verus! {

/// Failures surfaced to callers of the client.
///
/// Callers should branch on the variant, not on message text; the
/// message of [`Error::HTTPError`] is diagnostic only.
#[derive(Debug)]
pub enum Error {
    /// Any transport, HTTP-status or body-decode failure, carrying the
    /// underlying diagnostic text.
    HTTPError(String),
    /// A booking-status wire token outside the known vocabulary.
    UnknownStatus,
}

} // verus!
