use vstd::prelude::*;

verus! {

/// Everything that can go wrong in an operation of this library.
#[derive(Debug, Clone, Copy, PartialEq, Eq, Structural)]
pub enum KintoError {
    /// A conditional read found the resource unchanged.
    NotModified,
    /// A conditional write was refused by the server.
    PreconditionError,
    /// The operation needs an identifier and none is known.
    UndefinedIdError,
    /// The endpoint does not exist for this kind of resource.
    UnavailableEndpointError,
    /// The exchange failed, or the server answered with an unexpected status.
    HyperError,
    /// A document is malformed or has an unexpected shape.
    JsonError,
    /// A header value is not valid UTF-8.
    Utf8Error,
    /// The response body could not be read.
    IOError,
}

} // verus!
