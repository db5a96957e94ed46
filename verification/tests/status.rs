use transdirect::BookingStatus;
use transdirect::Error;

#[test]
fn round_trip_every_known_status() {
    let variants = vec![
        BookingStatus::New,
        BookingStatus::PendingPayment,
        BookingStatus::Paid,
        BookingStatus::RequestSent,
        BookingStatus::Reviewed,
        BookingStatus::Confirmed,
        BookingStatus::Cancelled,
        BookingStatus::PendingReview,
        BookingStatus::RequestFailed,
        BookingStatus::BookedManually,
    ];
    for v in variants {
        assert_eq!(BookingStatus::parse(v.to_wire_token()).unwrap(), v);
    }
}

#[test]
fn exact_wire_tokens() {
    assert_eq!(BookingStatus::New.to_wire_token(), "new");
    assert_eq!(BookingStatus::PendingPayment.to_wire_token(), "pending_payment");
    assert_eq!(BookingStatus::Paid.to_wire_token(), "paid");
    assert_eq!(BookingStatus::RequestSent.to_wire_token(), "request_sent");
    assert_eq!(BookingStatus::Reviewed.to_wire_token(), "reviewed");
    assert_eq!(BookingStatus::Confirmed.to_wire_token(), "confirmed");
    assert_eq!(BookingStatus::Cancelled.to_wire_token(), "cancelled");
    assert_eq!(BookingStatus::PendingReview.to_wire_token(), "pending_review");
    assert_eq!(BookingStatus::RequestFailed.to_wire_token(), "request_failed");
    assert_eq!(BookingStatus::BookedManually.to_wire_token(), "booked_manually");
}

#[test]
fn unknown_token_is_rejected_not_defaulted() {
    let r = BookingStatus::parse("not_a_real_status");
    assert!(matches!(r, Err(Error::UnknownStatus)));
}

#[test]
fn empty_token_is_rejected() {
    assert!(matches!(BookingStatus::parse(""), Err(Error::UnknownStatus)));
}

#[test]
fn parsing_is_exact_no_case_folding_or_trimming() {
    assert!(matches!(BookingStatus::parse("New"), Err(Error::UnknownStatus)));
    assert!(matches!(BookingStatus::parse(" new"), Err(Error::UnknownStatus)));
    assert!(matches!(BookingStatus::parse("new "), Err(Error::UnknownStatus)));
}

#[test]
fn booked_manually_parses() {
    assert_eq!(
        BookingStatus::parse("booked_manually").unwrap(),
        BookingStatus::BookedManually
    );
}

#[test]
fn default_status_is_new() {
    assert_eq!(BookingStatus::default(), BookingStatus::New);
}
