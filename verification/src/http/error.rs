//! Errors raised by one request attempt, before or after it reaches the
//! network.

use crate::error::Error as CrateError;
use vstd::prelude::*;

verus! {

/// Errors related to HTTP.
#[derive(Debug)]
pub struct Error {
    pub url: Option<String>,
    pub kind: Kind,
}

/// The origin of an HTTP error: the server rejected the request, the address
/// did not parse, or the transport failed. A transport failure is carried as
/// the text the dispatcher reported for it.
#[derive(Debug)]
pub enum Kind {
    UnsuccessfulRequest(u16),
    UrlError(url::ParseError),
    RequestError(String),
}

impl Error {
    /// Returns the URL associated to the error, if available.
    pub fn url(&self) -> (r: Option<String>)
        ensures
            r is Some <==> self.url is Some,
            r matches Some(u) ==> u == self.url->Some_0,
    {
        match &self.url {
            Some(u) => Some(u.clone()),
            None => None,
        }
    }

    /// Returns the status code, if the error was generated from a response.
    pub fn unsuccessful_request(&self) -> (r: Option<u16>)
        ensures
            r == (match self.kind {
                Kind::UnsuccessfulRequest(status) => Some(status),
                _ => None,
            }),
    {
        match &self.kind {
            Kind::UnsuccessfulRequest(status) => Some(*status),
            _ => None,
        }
    }

    /// Returns the parse error, if the error was generated from URL parsing.
    pub fn url_error(&self) -> (r: Option<url::ParseError>)
        ensures
            r == (match self.kind {
                Kind::UrlError(e) => Some(e),
                _ => None,
            }),
    {
        match &self.kind {
            Kind::UrlError(e) => Some(*e),
            _ => None,
        }
    }

    /// Returns the dispatcher's report, if the error was generated from a
    /// failed request.
    pub fn request_error(&self) -> (r: Option<&String>)
        ensures
            r is Some <==> self.kind is RequestError,
            r matches Some(m) ==> self.kind matches Kind::RequestError(km) && *m == km,
    {
        match &self.kind {
            Kind::RequestError(m) => Some(m),
            _ => None,
        }
    }
}

/// The crate error for a response whose status was not a success, carrying
/// the requested address and the status code.
pub fn unsuccessful_request(url: &str, status: u16) -> (r: CrateError)
    ensures
        ({
            &&& r matches CrateError::HttpError(e)
            &&& e.url matches Some(u) && u@ == url@
            &&& e.kind matches Kind::UnsuccessfulRequest(s) && s == status
        }),
{
    CrateError::HttpError(
        Error { url: Some(url.to_owned()), kind: Kind::UnsuccessfulRequest(status) },
    )
}

/// The crate error for an address that could not be parsed, carrying the
/// address and the parse error.
pub fn url_error(url: &str, e: url::ParseError) -> (r: CrateError)
    ensures
        ({
            &&& r matches CrateError::HttpError(he)
            &&& he.url matches Some(u) && u@ == url@
            &&& he.kind matches Kind::UrlError(pe) && pe == e
        }),
{
    CrateError::HttpError(Error { url: Some(url.to_owned()), kind: Kind::UrlError(e) })
}

/// The crate error for a failed transport attempt, carrying the address the
/// dispatcher reports for it (if any) and its report of the failure.
pub fn request_error(url: Option<String>, message: String) -> (r: CrateError)
    ensures
        ({
            &&& r matches CrateError::HttpError(he)
            &&& he.url == url
            &&& he.kind matches Kind::RequestError(m) && m == message
        }),
{
    CrateError::HttpError(Error { url, kind: Kind::RequestError(message) })
}

} // verus!
