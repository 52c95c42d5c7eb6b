use vstd::prelude::*;

verus! {

/// A failure reported by, or observed through, the HTTP transport.
#[derive(Debug)]
pub enum HttpError {
    /// The transport itself failed: connection, TLS, timeout, or a response
    /// body that did not decode into the expected shape.
    Transport(reqwest::Error),
    /// The server answered with a status outside the success range.
    Status(u16),
}

/// The two kinds of failure of this client.
#[derive(Debug)]
pub enum ClientError {
    /// Transport or HTTP-status failure.
    Reqwest(HttpError),
    /// The host, or an endpoint resolved against it, is not a valid URL.
    UrlParse(url::ParseError),
}

/// Success of a step, or the failure that ended it.
pub type Result<T> = core::result::Result<T, ClientError>;

} // verus!
