use vstd::prelude::*;

verus! {

use crate::Error;
use crate::account::AuthenticateWith;
use crate::booking::BookingRequest;
use crate::booking::BookingResponse;

/// The client's authentication and request state machine.
///
/// The transport itself (connection, headers, TLS, JSON bodies) lives
/// with the caller, which performs each network call and hands its
/// outcome back here.  This type owns the decisions: which credentials
/// stand attached, whether the verification call has succeeded, and
/// how a transport outcome maps to a typed result.
#[derive(Debug)]
pub struct Client<'a> {
    authenticated: bool,
    credentials: Option<AuthenticateWith<'a>>,
}

impl<'a> Client<'a> {
    /// Whether a verification call has succeeded on this client.
    pub closed spec fn spec_authenticated(&self) -> bool {
        self.authenticated
    }

    /// The standing credentials attached to the transport, if any.
    pub closed spec fn spec_credentials(&self) -> Option<AuthenticateWith<'a>> {
        self.credentials
    }

    /// A fresh client: unauthenticated, no credentials attached.
    pub fn new() -> (r: Self)
        ensures
            !r.spec_authenticated(),
            r.spec_credentials() is None,
    {
        Client { authenticated: false, credentials: None }
    }

    /// Whether this client has authenticated.
    pub fn authenticated(&self) -> (r: bool)
        ensures
            r == self.spec_authenticated(),
    {
        self.authenticated
    }

    /// Applies one authentication attempt.
    ///
    /// The chosen credentials replace whatever stood attached before:
    /// only one credential set is active at a time.  `verification` is
    /// the outcome of the verification call the caller made with those
    /// credentials against the member endpoint.  On success the client
    /// is authenticated; on failure the failure is surfaced as
    /// [`Error::HTTPError`] and the authentication state is unchanged,
    /// so a client that never succeeded stays unauthenticated.
    pub fn auth(&mut self, auth: AuthenticateWith<'a>, verification: Result<(), String>) -> (r:
        Result<(), Error>)
        ensures
            final(self).spec_credentials() == Some(auth),
            match verification {
                Ok(_) => final(self).spec_authenticated() && r is Ok,
                Err(msg) => final(self).spec_authenticated() == old(self).spec_authenticated()
                    && (match r {
                    Err(e) => e == Error::HTTPError(msg),
                    Ok(_) => false,
                }),
            },
    {
        self.credentials = Some(auth);
        match verification {
            Ok(_) => {
                self.authenticated = true;
                Ok(())
            },
            Err(msg) => Err(Error::HTTPError(msg)),
        }
    }

    /// A client constructed and authenticated in one step.
    ///
    /// A failed verification yields the failure and no client at all,
    /// so no partially authenticated client escapes.
    pub fn from_auth(auth: AuthenticateWith<'a>, verification: Result<(), String>) -> (r: Result<
        Self,
        Error,
    >)
        ensures
            match verification {
                Ok(_) => match r {
                    Ok(c) => c.spec_authenticated() && c.spec_credentials() == Some(auth),
                    Err(_) => false,
                },
                Err(msg) => match r {
                    Err(e) => e == Error::HTTPError(msg),
                    Ok(_) => false,
                },
            },
    {
        let mut newclient = Self::new();
        match Self::auth(&mut newclient, auth, verification) {
            Ok(_) => Ok(newclient),
            Err(e) => Err(e),
        }
    }

    /// [`Client::from_auth`] with HTTP Basic credentials.
    pub fn from_basic(user: &'a str, password: &'a str, verification: Result<(), String>) -> (r:
        Result<Self, Error>)
        ensures
            match verification {
                Ok(_) => match r {
                    Ok(c) => c.spec_authenticated() && c.spec_credentials() == Some(
                        AuthenticateWith::Basic(user, password),
                    ),
                    Err(_) => false,
                },
                Err(msg) => match r {
                    Err(e) => e == Error::HTTPError(msg),
                    Ok(_) => false,
                },
            },
    {
        Self::from_auth(AuthenticateWith::Basic(user, password), verification)
    }

    /// [`Client::from_auth`] with an API key.
    pub fn from_api_key(apikey: &'a str, verification: Result<(), String>) -> (r: Result<
        Self,
        Error,
    >)
        ensures
            match verification {
                Ok(_) => match r {
                    Ok(c) => c.spec_authenticated() && c.spec_credentials() == Some(
                        AuthenticateWith::APIKey(apikey),
                    ),
                    Err(_) => false,
                },
                Err(msg) => match r {
                    Err(e) => e == Error::HTTPError(msg),
                    Ok(_) => false,
                },
            },
    {
        Self::from_auth(AuthenticateWith::APIKey(apikey), verification)
    }

    /// Maps the transport outcome of one booking POST to a typed
    /// result: the response record on success, [`Error::HTTPError`]
    /// with the diagnostic text on any transport failure.
    ///
    /// Authentication is not hard-blocked here: a call on a client
    /// that never authenticated fails at the transport layer, and that
    /// failure is surfaced the same way, never as a crash.
    pub fn quotes<'b>(
        &self,
        request: &'b BookingRequest<'b>,
        transport: Result<BookingResponse, String>,
    ) -> (r: Result<BookingResponse, Error>)
        ensures
            match transport {
                Ok(resp) => match r {
                    Ok(out) => out == resp,
                    Err(_) => false,
                },
                Err(msg) => match r {
                    Err(e) => e == Error::HTTPError(msg),
                    Ok(_) => false,
                },
            },
    {
        match transport {
            Ok(resp) => Ok(resp),
            Err(msg) => Err(Error::HTTPError(msg)),
        }
    }
}

} // verus!
