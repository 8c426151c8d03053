//! The failures that the engine itself reports.

use vstd::prelude::*;

verus! {

/// Which of the two correlation headers a failure is about.
#[derive(Clone, Copy, Debug, PartialEq, Eq, Structural)]
pub enum HeaderName {
    /// `X-Server-Id`, the backend that served the call.
    ServerId,
    /// `X-Customer-Id`, the customer on whose behalf the call was made.
    CustomerId,
}

/// Why the value of a correlation header was not accepted.
#[derive(Clone, Copy, Debug, PartialEq, Eq, Structural)]
pub enum HeaderFault {
    /// The value holds a byte that is not a visible ASCII character.
    NotText,
    /// The value is text, but not a UUID in any of the accepted forms.
    NotUuid,
}

/// A failure that ends the call or the test body in which it comes up.
///
/// Failures of the transport (no connection, a timeout) never reach the
/// engine: the caller that does the exchange reports them itself.
#[derive(Debug, PartialEq, Eq)]
pub enum Error {
    /// The address of an operation cannot be formed from the base of the
    /// client.
    InvalidUrl,
    /// The service answered with a correlation header that cannot be read.
    InvalidHeader(HeaderName, HeaderFault),
    /// The service answered with a status other than 200 and 400.
    InvalidStatus(u16),
    /// The service answered 200 with a body that is not what the operation
    /// returns.
    InvalidBody,
    /// A reservation was expected and the tickets were sold out.
    ReservationFailed,
    /// A soft assertion failed; the message is also kept by the context.
    Check(String),
}

} // verus!
