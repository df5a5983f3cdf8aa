//! What can go wrong while a request is served.

use vstd::prelude::*;

verus! {

/// What a lookup did not find.
#[derive(Clone, Copy, Debug, PartialEq, Eq, Structural)]
pub enum Missing {
    /// No slot has the name that was asked for.
    AdSlot,
    /// No ad has the identifier that was asked for.
    Ad,
}

/// Why a command was turned down.
#[derive(Clone, Copy, Debug, PartialEq, Eq, Structural)]
pub enum Rejection {
    /// Slots cannot be injected under static insertion.
    StaticMode,
    /// The query lacks `in`, `dur` or `pod`, or one of them is no number.
    MissingParameters,
}

/// Why a request could not be served as asked.
#[derive(Clone, Copy, Debug, PartialEq, Eq, Structural)]
pub enum ProxyError {
    /// A date, a URL or a playlist could not be read or written.
    ParseFailure,
    /// A slot or an ad is missing.
    NotFound(Missing),
    /// The origin or the ad server could not be reached.
    UpstreamTransport,
    /// The request itself is at fault.
    BadRequest(Rejection),
    /// The combination of stream and configuration is not supported.
    Unsupported,
}

/// An upstream answered well: its status lies in the range 200 to 299.
pub open spec fn is_success(status: u16) -> bool {
    200 <= status <= 299
}

/// Judges the status with which an upstream answered: any status outside
/// the range 200 to 299 is a transport failure.
pub fn check_upstream_status(status: u16) -> (r: Result<(), ProxyError>)
    ensures
        is_success(status) ==> r is Ok,
        !is_success(status) ==> r == Err::<(), ProxyError>(ProxyError::UpstreamTransport),
{
    if 200 <= status && status <= 299 {
        Ok(())
    } else {
        Err(ProxyError::UpstreamTransport)
    }
}

impl ProxyError {
    /// The HTTP status that reports the error.
    pub open spec fn status(self) -> u16 {
        match self {
            ProxyError::NotFound(_) => 404,
            ProxyError::BadRequest(_) => 400,
            _ => 500,
        }
    }

    /// The HTTP status that reports the error: 404 for what is missing, 400
    /// for a bad request, 500 for anything else.
    pub fn status_code(&self) -> (r: u16)
        ensures
            r == self.status(),
    {
        match self {
            ProxyError::NotFound(_) => 404,
            ProxyError::BadRequest(_) => 400,
            _ => 500,
        }
    }

    /// The text that reports the error.
    pub open spec fn text(self) -> Seq<char> {
        match self {
            ProxyError::ParseFailure => "Parse failure"@,
            ProxyError::NotFound(Missing::AdSlot) => "Ad slot missing"@,
            ProxyError::NotFound(Missing::Ad) => "Ad not found"@,
            ProxyError::UpstreamTransport => "Upstream transport error"@,
            ProxyError::BadRequest(Rejection::StaticMode) =>
                "Ad insertion is not supported in static mode."@,
            ProxyError::BadRequest(Rejection::MissingParameters) =>
                "Missing required query parameters"@,
            ProxyError::Unsupported => "Dynamic ad insertion is not supported for VOD streams."@,
        }
    }

    /// The text that reports the error; for a missing entity it names the
    /// entity.
    pub fn message(&self) -> (r: String)
        ensures
            r@ == self.text(),
    {
        let text: &'static str = match self {
            ProxyError::ParseFailure => "Parse failure",
            ProxyError::NotFound(Missing::AdSlot) => "Ad slot missing",
            ProxyError::NotFound(Missing::Ad) => "Ad not found",
            ProxyError::UpstreamTransport => "Upstream transport error",
            ProxyError::BadRequest(Rejection::StaticMode) =>
                "Ad insertion is not supported in static mode.",
            ProxyError::BadRequest(Rejection::MissingParameters) =>
                "Missing required query parameters",
            ProxyError::Unsupported => "Dynamic ad insertion is not supported for VOD streams.",
        };
        text.to_owned()
    }
}

} // verus!
