use vstd::prelude::*;

verus! {

/// The ways in which building, sending or decoding a request can fail.
#[derive(Debug, Clone, Copy, PartialEq, Eq, Structural)]
pub enum RequestError {
    /// The target is not an absolute URI (scheme and authority).
    InvalidUri,
    /// The request body could not be encoded as JSON.
    SerializationError,
    /// The connection, TLS or HTTP exchange failed.
    TransportError,
    /// The response body is not valid UTF-8.
    EncodingError,
    /// The response text is not one JSON value of the requested shape.
    DeserializationError,
}

} // verus!
