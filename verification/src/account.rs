use vstd::prelude::*;

verus! {

/// A party to a shipment: the sender or the receiver.
///
/// An account has no identity beyond its field values and is immutable
/// once constructed; requests borrow accounts, responses own them.
#[derive(Debug)]
pub struct Account {
    pub address: String,
    pub name: String,
    pub email: String,
    pub postcode: u32,
    pub state: String,
    pub suburb: String,
    /// `"residential"` or `"business"`; kept as an open string because
    /// the wire does not promise the set is closed.
    pub kind: String,
    pub country: String,
    pub company_name: String,
}

impl Default for Account {
    /// An account with every text field empty and postcode zero.
    fn default() -> (r: Self)
        ensures
            r.address@.len() == 0,
            r.name@.len() == 0,
            r.email@.len() == 0,
            r.postcode == 0,
            r.state@.len() == 0,
            r.suburb@.len() == 0,
            r.kind@.len() == 0,
            r.country@.len() == 0,
            r.company_name@.len() == 0,
    {
        Account {
            address: String::new(),
            name: String::new(),
            email: String::new(),
            postcode: 0,
            state: String::new(),
            suburb: String::new(),
            kind: String::new(),
            country: String::new(),
            company_name: String::new(),
        }
    }
}

/// The two credential shapes the service accepts, mutually exclusive
/// and chosen by the caller: HTTP Basic, or the `Api-key` header.
#[derive(Debug, Clone, Copy)]
pub enum AuthenticateWith<'a> {
    /// HTTP Basic credentials: username and password.
    Basic(&'a str, &'a str),
    /// The service's API-key header value.
    APIKey(&'a str),
}

} // verus!
