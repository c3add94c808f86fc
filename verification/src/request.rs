//! The requests of the three operations.
//!
//! A request is an HTTP GET of a URL that names the operation's endpoint and
//! carries, as query parameters, the address to look at, the API key, the
//! format of the answer and a tag that tells the service which client asks.
//! The address and the key are put into the URL as they are given.

use vstd::prelude::*;
use crate::json::json_parse;
use crate::response::{decode_response, document_of, yields, DecodeError, Document};

verus! {

/// One of the three checks that the service offers.
#[derive(Clone, Copy, Debug, PartialEq, Eq, Structural)]
pub enum Operation {
    /// The single validation of an address.
    Validation,
    /// Whether an address is of a disposable email provider.
    Disposable,
    /// Whether an address is of a free email provider.
    Free,
}

/// What follows the key in every request: the format and the client's tag.
pub open spec fn url_tail() -> Seq<char> {
    "&format=json&source=sdk-rust-mbv"@
}

/// The URL of an operation's request for an address, with an API key.
pub open spec fn request_url(operation: Operation, email_address: Seq<char>, apikey: Seq<char>) -> Seq<
    char,
> {
    operation.endpoint_url() + "?email="@ + email_address + "&key="@ + apikey + url_tail()
}

impl Operation {
    /// The URL of the operation's endpoint, without a query.
    pub open spec fn endpoint_url(self) -> Seq<char> {
        match self {
            Operation::Validation => "https://api.mailboxvalidator.com/v2/validation/single"@,
            Operation::Disposable => "https://api.mailboxvalidator.com/v2/email/disposable"@,
            Operation::Free => "https://api.mailboxvalidator.com/v2/email/free"@,
        }
    }

    /// The URL of the operation's endpoint, without a query.
    pub fn endpoint(self) -> (url: &'static str)
        ensures
            url@ == self.endpoint_url(),
    {
        match self {
            Operation::Validation => "https://api.mailboxvalidator.com/v2/validation/single",
            Operation::Disposable => "https://api.mailboxvalidator.com/v2/email/disposable",
            Operation::Free => "https://api.mailboxvalidator.com/v2/email/free",
        }
    }
}

/// A request that is ready to be sent: the operation, and the URL to get.
#[derive(Clone, Debug, PartialEq, Eq)]
pub struct Request {
    pub operation: Operation,
    pub url: String,
}

impl Request {
    /// The request of an operation for an address, with an API key.
    pub fn new(operation: Operation, email_address: &str, apikey: &str) -> (request: Request)
        ensures
            request.operation == operation,
            request.url@ == request_url(operation, email_address@, apikey@),
    {
        let mut url = String::from_str(operation.endpoint());
        url.append("?email=");
        url.append(email_address);
        url.append("&key=");
        url.append(apikey);
        url.append("&format=json&source=sdk-rust-mbv");
        Request { operation, url }
    }

    /// Turns the response to this request into the caller's document.
    pub fn receive(&self, status: u16, body: &[u8]) -> (r: Result<Document, DecodeError>)
        ensures
            yields(r, document_of(self.operation, status, json_parse(body@))),
            status != 200 && status != 400 && status != 401 ==> r matches Ok(Document::Null),
    {
        decode_response(self.operation, status, body)
    }
}

/// The request that validates an address.
pub fn validate_email(email_address: &str, apikey: &str) -> (request: Request)
    ensures
        request.operation == Operation::Validation,
        request.url@ == request_url(Operation::Validation, email_address@, apikey@),
{
    Request::new(Operation::Validation, email_address, apikey)
}

/// The request that asks whether an address is of a disposable email provider.
pub fn is_disposable_email(email_address: &str, apikey: &str) -> (request: Request)
    ensures
        request.operation == Operation::Disposable,
        request.url@ == request_url(Operation::Disposable, email_address@, apikey@),
{
    Request::new(Operation::Disposable, email_address, apikey)
}

/// The request that asks whether an address is of a free email provider.
pub fn is_free_email(email_address: &str, apikey: &str) -> (request: Request)
    ensures
        request.operation == Operation::Free,
        request.url@ == request_url(Operation::Free, email_address@, apikey@),
{
    Request::new(Operation::Free, email_address, apikey)
}

} // verus!
