use vstd::prelude::*;

verus! {

use crate::Error;
use crate::account::Account;
use crate::money::Money;
use crate::product::Product;
use crate::product::Service;
use crate::text::spec_decimal;
use crate::text::str_eq;
use crate::text::u32_decimal;
use vstd::string::StringExecFns;

/// Lifecycle states of a booking, named as the wire names them.
///
/// The remote vocabulary may grow before this library is updated, so
/// the enum is non-exhaustive and parsing an unknown token is a
/// recoverable failure ([`Error::UnknownStatus`]), never a silent
/// fallback to a default variant.
#[derive(Debug, PartialEq, Eq, Structural, Clone, Copy)]
#[non_exhaustive]
pub enum BookingStatus {
    New,
    PendingPayment,
    Paid,
    RequestSent,
    Reviewed,
    Confirmed,
    Cancelled,
    PendingReview,
    RequestFailed,
    BookedManually,
}

/// The wire token of a known status: exact lower-snake-case.
pub open spec fn spec_wire_token(s: BookingStatus) -> Seq<char> {
    match s {
        BookingStatus::New => "new"@,
        BookingStatus::PendingPayment => "pending_payment"@,
        BookingStatus::Paid => "paid"@,
        BookingStatus::RequestSent => "request_sent"@,
        BookingStatus::Reviewed => "reviewed"@,
        BookingStatus::Confirmed => "confirmed"@,
        BookingStatus::Cancelled => "cancelled"@,
        BookingStatus::PendingReview => "pending_review"@,
        BookingStatus::RequestFailed => "request_failed"@,
        BookingStatus::BookedManually => "booked_manually"@,
    }
}

/// What parsing a wire token yields: the status whose token matches
/// exactly (no trimming, no case folding), or nothing at all.
pub open spec fn spec_parse_status(t: Seq<char>) -> Option<BookingStatus> {
    if t == "new"@ {
        Some(BookingStatus::New)
    } else if t == "pending_payment"@ {
        Some(BookingStatus::PendingPayment)
    } else if t == "paid"@ {
        Some(BookingStatus::Paid)
    } else if t == "request_sent"@ {
        Some(BookingStatus::RequestSent)
    } else if t == "reviewed"@ {
        Some(BookingStatus::Reviewed)
    } else if t == "confirmed"@ {
        Some(BookingStatus::Confirmed)
    } else if t == "cancelled"@ {
        Some(BookingStatus::Cancelled)
    } else if t == "pending_review"@ {
        Some(BookingStatus::PendingReview)
    } else if t == "request_failed"@ {
        Some(BookingStatus::RequestFailed)
    } else if t == "booked_manually"@ {
        Some(BookingStatus::BookedManually)
    } else {
        None
    }
}

impl Default for BookingStatus {
    /// A booking starts out `New`.
    fn default() -> (r: Self)
        ensures
            r == BookingStatus::New,
    {
        BookingStatus::New
    }
}

impl BookingStatus {
    /// Parses a wire token by exact match against the known table.
    ///
    /// An unrecognised token fails with [`Error::UnknownStatus`], a
    /// distinct, recoverable error kind, so callers can special-case
    /// "unknown but structurally valid" responses.
    pub fn parse(token: &str) -> (r: Result<BookingStatus, Error>)
        ensures
            match r {
                Ok(v) => spec_parse_status(token@) == Some(v),
                Err(e) => spec_parse_status(token@) is None && e == Error::UnknownStatus,
            },
    {
        if str_eq(token, "new") {
            Ok(BookingStatus::New)
        } else if str_eq(token, "pending_payment") {
            Ok(BookingStatus::PendingPayment)
        } else if str_eq(token, "paid") {
            Ok(BookingStatus::Paid)
        } else if str_eq(token, "request_sent") {
            Ok(BookingStatus::RequestSent)
        } else if str_eq(token, "reviewed") {
            Ok(BookingStatus::Reviewed)
        } else if str_eq(token, "confirmed") {
            Ok(BookingStatus::Confirmed)
        } else if str_eq(token, "cancelled") {
            Ok(BookingStatus::Cancelled)
        } else if str_eq(token, "pending_review") {
            Ok(BookingStatus::PendingReview)
        } else if str_eq(token, "request_failed") {
            Ok(BookingStatus::RequestFailed)
        } else if str_eq(token, "booked_manually") {
            Ok(BookingStatus::BookedManually)
        } else {
            Err(Error::UnknownStatus)
        }
    }

    /// The wire token of this status: the exact inverse of [`Self::parse`]
    /// for every known variant.
    pub fn to_wire_token(&self) -> (r: &'static str)
        ensures
            r@ == spec_wire_token(*self),
    {
        match self {
            BookingStatus::New => "new",
            BookingStatus::PendingPayment => "pending_payment",
            BookingStatus::Paid => "paid",
            BookingStatus::RequestSent => "request_sent",
            BookingStatus::Reviewed => "reviewed",
            BookingStatus::Confirmed => "confirmed",
            BookingStatus::Cancelled => "cancelled",
            BookingStatus::PendingReview => "pending_review",
            BookingStatus::RequestFailed => "request_failed",
            BookingStatus::BookedManually => "booked_manually",
        }
    }
}

/// Round trip: parsing the wire token of any known status yields that
/// same status back.
pub proof fn lemma_status_round_trip(v: BookingStatus)
    ensures
        spec_parse_status(spec_wire_token(v)) == Some(v),
{
    reveal_strlit("new");
    reveal_strlit("pending_payment");
    reveal_strlit("paid");
    reveal_strlit("request_sent");
    reveal_strlit("reviewed");
    reveal_strlit("confirmed");
    reveal_strlit("cancelled");
    reveal_strlit("pending_review");
    reveal_strlit("request_failed");
    reveal_strlit("booked_manually");
    assert("new"@.len() == 3);
    assert("pending_payment"@.len() == 15);
    assert("paid"@.len() == 4);
    assert("request_sent"@.len() == 12);
    assert("reviewed"@.len() == 8);
    assert("confirmed"@.len() == 9);
    assert("cancelled"@.len() == 9);
    assert("pending_review"@.len() == 14);
    assert("request_failed"@.len() == 14);
    assert("booked_manually"@.len() == 15);
    // The length facts separate every pair of tokens but three; a
    // distinguishing character settles each of those.
    assert("confirmed"@[1] == 'o' && "cancelled"@[1] == 'a');
    assert("pending_review"@[0] == 'p' && "request_failed"@[0] == 'r');
    assert("pending_payment"@[0] == 'p' && "booked_manually"@[0] == 'b');
    match v {
        BookingStatus::New => assert(spec_parse_status("new"@) == Some(BookingStatus::New)),
        BookingStatus::PendingPayment => assert(spec_parse_status("pending_payment"@) == Some(
            BookingStatus::PendingPayment,
        )),
        BookingStatus::Paid => assert(spec_parse_status("paid"@) == Some(BookingStatus::Paid)),
        BookingStatus::RequestSent => assert(spec_parse_status("request_sent"@) == Some(
            BookingStatus::RequestSent,
        )),
        BookingStatus::Reviewed => assert(spec_parse_status("reviewed"@) == Some(
            BookingStatus::Reviewed,
        )),
        BookingStatus::Confirmed => assert(spec_parse_status("confirmed"@) == Some(
            BookingStatus::Confirmed,
        )),
        BookingStatus::Cancelled => assert(spec_parse_status("cancelled"@) == Some(
            BookingStatus::Cancelled,
        )),
        BookingStatus::PendingReview => assert(spec_parse_status("pending_review"@) == Some(
            BookingStatus::PendingReview,
        )),
        BookingStatus::RequestFailed => assert(spec_parse_status("request_failed"@) == Some(
            BookingStatus::RequestFailed,
        )),
        BookingStatus::BookedManually => assert(spec_parse_status("booked_manually"@) == Some(
            BookingStatus::BookedManually,
        )),
    }
}

/// Inverse round trip: a token that parses at all is exactly the wire
/// token of the status it parses to.
pub proof fn lemma_token_of_parsed(t: Seq<char>, v: BookingStatus)
    requires
        spec_parse_status(t) == Some(v),
    ensures
        spec_wire_token(v) == t,
{
}

/// An instant together with the timezone offset its wire rendering
/// carried, as the service's ISO-8601 timestamps are timezone-aware.
#[derive(Debug, Clone, Copy, PartialEq, Eq, Structural)]
pub struct Timestamp {
    /// Seconds since the Unix epoch.
    pub unix_seconds: i64,
    /// The offset from UTC, in minutes, between -24 and +24 hours.
    pub offset_minutes: i32,
}

impl Timestamp {
    /// A well-formed timestamp keeps its offset within a day.
    pub open spec fn wf(self) -> bool {
        -1440 <= self.offset_minutes <= 1440
    }

    /// An instant from epoch seconds and a UTC offset in minutes.
    pub fn new(unix_seconds: i64, offset_minutes: i32) -> (r: Self)
        requires
            -1440 <= offset_minutes <= 1440,
        ensures
            r.unix_seconds == unix_seconds,
            r.offset_minutes == offset_minutes,
            r.wf(),
    {
        Timestamp { unix_seconds, offset_minutes }
    }
}

/// No two entries of a name-keyed mapping share a name.
pub open spec fn keys_unique<V>(entries: Seq<(String, V)>) -> bool {
    forall|i: int, j: int| 0 <= i < j < entries.len() ==> entries[i].0@ != entries[j].0@
}

/// Decides whether a name-keyed entry list is a genuine mapping.
fn entries_keys_unique<V>(entries: &Vec<(String, V)>) -> (r: bool)
    ensures
        r == keys_unique(entries@),
{
    let n = entries.len();
    let mut i: usize = 0;
    while i < n
        invariant
            0 <= i <= n,
            n == entries@.len(),
            forall|p: int, q: int| 0 <= p < q < i ==> entries@[p].0@ != entries@[q].0@,
        decreases n - i,
    {
        let mut j: usize = 0;
        while j < i
            invariant
                0 <= j <= i < n,
                n == entries@.len(),
                forall|p: int, q: int| 0 <= p < q < i ==> entries@[p].0@ != entries@[q].0@,
                forall|q: int| 0 <= q < j ==> entries@[q].0@ != entries@[i as int].0@,
            decreases i - j,
        {
            if str_eq(entries[j].0.as_str(), entries[i].0.as_str()) {
                return false;
            }
            j += 1;
        }
        i += 1;
    }
    true
}

/// A single outbound booking request: a quote or an order.
///
/// The request borrows its sender and receiver, so it can never
/// outlive the account data it points to.
#[derive(Debug)]
pub struct BookingRequest<'a> {
    pub declared_value: Money,
    pub referrer: String,
    pub requesting_site: String,
    pub tailgate_pickup: bool,
    pub tailgate_delivery: bool,
    pub items: Vec<Product>,
    pub sender: Option<&'a Account>,
    pub receiver: Option<&'a Account>,
}

impl<'a> BookingRequest<'a> {
    /// An empty request: zero declared value, both tailgate flags off,
    /// no items, no sender, no receiver.
    pub fn new() -> (r: Self)
        ensures
            r.declared_value.cents == 0,
            r.referrer@.len() == 0,
            r.requesting_site@.len() == 0,
            !r.tailgate_pickup,
            !r.tailgate_delivery,
            r.items@.len() == 0,
            r.sender is None,
            r.receiver is None,
    {
        BookingRequest {
            declared_value: Money::zero(),
            referrer: String::new(),
            requesting_site: String::new(),
            tailgate_pickup: false,
            tailgate_delivery: false,
            items: Vec::new(),
            sender: None,
            receiver: None,
        }
    }

    /// The creation endpoint path every booking request is posted to.
    pub fn get_path() -> (r: String)
        ensures
            r@ == "bookings/v4"@,
    {
        String::from_str("bookings/v4")
    }
}

impl<'a> Default for BookingRequest<'a> {
    /// The same empty request as [`BookingRequest::new`].
    fn default() -> (r: Self)
        ensures
            r.declared_value.cents == 0,
            r.referrer@.len() == 0,
            r.requesting_site@.len() == 0,
            !r.tailgate_pickup,
            !r.tailgate_delivery,
            r.items@.len() == 0,
            r.sender is None,
            r.receiver is None,
    {
        BookingRequest::new()
    }
}

/// An inbound booking record, fully owned by the caller.
///
/// The id, the status and the three timestamps are never optional; an
/// absent consignment note is `None`, which the wire distinguishes
/// from an empty string.
#[derive(Debug)]
pub struct BookingResponse {
    pub id: u32,
    pub status: BookingStatus,
    pub booked_at: Timestamp,
    /// The booking party; expected to be `"sender"`.
    pub booked_by: String,
    pub created_at: Timestamp,
    pub updated_at: Timestamp,
    pub declared_value: Money,
    pub insured_value: Money,
    pub description: Option<String>,
    pub items: Vec<Product>,
    /// Shipping-label reference.
    pub label: String,
    /// Named boolean notification switches, keyed by name.
    pub notifications: Vec<(String, bool)>,
    /// Competing carrier quotes, keyed by service name, unordered.
    pub quotes: Vec<(String, Service)>,
    pub sender: Account,
    pub receiver: Account,
    /// Loosely-typed pickup-window date strings.
    pub pickup_window: Vec<String>,
    /// Consignment-note reference; absent until a carrier accepts.
    pub connote: Option<String>,
    pub charged_weight: u64,
    pub scanned_weight: u64,
    pub special_instructions: String,
    pub tailgate_delivery: bool,
}

impl BookingResponse {
    /// Both name-keyed mappings behave as mappings: no duplicate keys.
    pub open spec fn wf(&self) -> bool {
        keys_unique(self.notifications@) && keys_unique(self.quotes@)
    }

    /// Checks the mapping invariant on a freshly decoded response:
    /// whether both name-keyed mappings are free of duplicate keys.
    pub fn validate(&self) -> (r: bool)
        ensures
            r == self.wf(),
    {
        entries_keys_unique(&self.notifications) && entries_keys_unique(&self.quotes)
    }

    /// The retrieval path of the booking with the given id.
    pub fn get_path(params: u32) -> (r: String)
        ensures
            r@ == "bookings/v4/"@ + spec_decimal(params as int),
    {
        let mut s = String::from_str("bookings/v4/");
        let d = u32_decimal(params);
        s.append(d.as_str());
        s
    }

    /// Looks a carrier quote up by service name: the first entry whose
    /// name matches exactly, if any does.
    pub fn quote_for<'s>(&'s self, name: &str) -> (r: Option<&'s Service>)
        ensures
            match r {
                Some(s) => exists|i: int|
                    0 <= i < self.quotes@.len() && self.quotes@[i].0@ == name@ && s
                        == self.quotes@[i].1 && (forall|j: int|
                        0 <= j < i ==> self.quotes@[j].0@ != name@),
                None => forall|i: int|
                    0 <= i < self.quotes@.len() ==> self.quotes@[i].0@ != name@,
            },
    {
        let n = self.quotes.len();
        let mut i: usize = 0;
        while i < n
            invariant
                0 <= i <= n,
                n == self.quotes@.len(),
                forall|j: int| 0 <= j < i ==> self.quotes@[j].0@ != name@,
            decreases n - i,
        {
            if str_eq(self.quotes[i].0.as_str(), name) {
                return Some(&self.quotes[i].1);
            }
            i += 1;
        }
        None
    }

    /// Looks a notification switch up by name: the first entry whose
    /// name matches exactly, if any does.
    pub fn notification(&self, name: &str) -> (r: Option<bool>)
        ensures
            match r {
                Some(b) => exists|i: int|
                    0 <= i < self.notifications@.len() && self.notifications@[i].0@ == name@ && b
                        == self.notifications@[i].1 && (forall|j: int|
                        0 <= j < i ==> self.notifications@[j].0@ != name@),
                None => forall|i: int|
                    0 <= i < self.notifications@.len() ==> self.notifications@[i].0@ != name@,
            },
    {
        let n = self.notifications.len();
        let mut i: usize = 0;
        while i < n
            invariant
                0 <= i <= n,
                n == self.notifications@.len(),
                forall|j: int| 0 <= j < i ==> self.notifications@[j].0@ != name@,
            decreases n - i,
        {
            if str_eq(self.notifications[i].0.as_str(), name) {
                return Some(self.notifications[i].1);
            }
            i += 1;
        }
        None
    }
}

} // verus!
