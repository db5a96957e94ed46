use transdirect::Account;
use transdirect::AuthenticateWith;
use transdirect::BookingRequest;
use transdirect::BookingResponse;
use transdirect::BookingStatus;
use transdirect::Error;
use transdirect::Money;
use transdirect::Product;
use transdirect::Timestamp;
use transdirect::TransdirectClient as Client;

fn src_dest() -> (Account, Account) {
    (
        Account {
            address: "130 Royal St".to_string(),
            name: "John Smith".to_string(),
            email: "jsmith@google.com".to_string(),
            postcode: 6004,
            state: "WA".to_string(),
            suburb: "East Perth".to_string(),
            kind: "business".to_string(),
            country: "AU".to_string(),
            company_name: "Royal Australian Mint".to_string(),
        },
        Account {
            address: "1 Pearl Bay Ave".to_string(),
            name: "Jane Doe".to_string(),
            email: "jdoe@google.com".to_string(),
            postcode: 2088,
            state: "NSW".to_string(),
            suburb: "Mosman".to_string(),
            kind: "residential".to_string(),
            country: "AU".to_string(),
            company_name: "Sydney Harbour Operations Ltd.".to_string(),
        },
    )
}

fn booked_response(items: Vec<Product>) -> BookingResponse {
    let (sender, receiver) = src_dest();
    BookingResponse {
        id: 42,
        status: BookingStatus::parse("new").unwrap(),
        booked_at: Timestamp::new(1_700_000_000, 600),
        booked_by: "sender".to_string(),
        created_at: Timestamp::new(1_700_000_000, 600),
        updated_at: Timestamp::new(1_700_000_050, 600),
        declared_value: Money::from_units_and_cents(53, 30),
        insured_value: Money::zero(),
        description: None,
        items,
        label: String::new(),
        notifications: vec![],
        quotes: vec![],
        sender,
        receiver,
        pickup_window: vec![],
        connote: None,
        charged_weight: 0,
        scanned_weight: 0,
        special_instructions: String::new(),
        tailgate_delivery: false,
    }
}

#[test]
fn fresh_client_is_unauthenticated() {
    let c = Client::new();
    assert!(!c.authenticated());
}

#[test]
fn successful_auth_authenticates() {
    let mut c = Client::new();
    let r = c.auth(AuthenticateWith::APIKey("example-api-key"), Ok(()));
    assert!(r.is_ok());
    assert!(c.authenticated());
}

#[test]
fn failed_auth_leaves_client_unauthenticated() {
    let mut c = Client::new();
    let r = c.auth(
        AuthenticateWith::Basic("user", "wrong"),
        Err("401 Unauthorized".to_string()),
    );
    match r {
        Err(Error::HTTPError(msg)) => assert_eq!(msg, "401 Unauthorized"),
        _ => panic!("expected a transport failure"),
    }
    assert!(!c.authenticated());
}

#[test]
fn from_auth_propagates_failure_and_yields_no_client() {
    let r = Client::from_auth(
        AuthenticateWith::APIKey("example-api-key"),
        Err("403 Forbidden".to_string()),
    );
    assert!(matches!(r, Err(Error::HTTPError(_))));
}

#[test]
fn from_basic_success_yields_authenticated_client() {
    let c = Client::from_basic("user", "pass", Ok(())).unwrap();
    assert!(c.authenticated());
}

#[test]
fn from_api_key_success_yields_authenticated_client() {
    let c = Client::from_api_key("example-api-key", Ok(())).unwrap();
    assert!(c.authenticated());
}

#[test]
fn unauthenticated_quotes_surfaces_transport_error() {
    let c = Client::new();
    let request = BookingRequest::new();
    let r = c.quotes(&request, Err("401 Unauthorized".to_string()));
    assert!(!c.authenticated());
    assert!(matches!(r, Err(Error::HTTPError(_))));
}

#[test]
fn quotes_passes_a_successful_response_through() {
    let items = vec![Product::from_lwh_quantity(5, 5, 5, 7)];
    let (sender, receiver) = src_dest();
    let request = BookingRequest {
        declared_value: Money::from_units_and_cents(53, 30),
        items: vec![Product::from_lwh_quantity(5, 5, 5, 7)],
        sender: Some(&sender),
        receiver: Some(&receiver),
        ..BookingRequest::default()
    };
    let mut c = Client::new();
    c.auth(AuthenticateWith::APIKey("example-api-key"), Ok(())).unwrap();
    let response = c.quotes(&request, Ok(booked_response(items))).unwrap();
    assert_eq!(response.status, BookingStatus::New);
    assert_eq!(response.items.len(), 1);
    assert_eq!(response.items[0].quantity, 7);
}

#[test]
fn should_get_response() {
    let c = Client::new();
    let items = vec![Product::from_lwh_quantity(5, 5, 5, 7)];
    let (sender, receiver) = src_dest();
    let b = BookingRequest {
        declared_value: Money::from_units_and_cents(53, 30),
        items: vec![Product::from_lwh_quantity(5, 5, 5, 7)],
        sender: Some(&sender),
        receiver: Some(&receiver),
        ..BookingRequest::default()
    };

    let m = c.quotes(&b, Ok(booked_response(items)));
    match m {
        Ok(m) => println!("{:?}", m),
        Err(e) => println!("{:?}", e),
    }
}
