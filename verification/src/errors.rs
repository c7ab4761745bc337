//! The failure taxonomy of the dispatch core. Every error is returned as
//! a typed value; no verified function of the library panics on malformed
//! input.

use vstd::prelude::*;

verus! {

/// Why a request could not be built. Raised before anything would be
/// sent, and distinct from transport or server failures.
#[derive(Clone, Copy, Debug, PartialEq, Eq, Structural)]
pub enum RequestConstructionError {
    /// A required parameter value is empty.
    EmptyRequiredField,
    /// A parameter holds a character outside the ASCII range; the query
    /// encoder only writes ASCII parameters.
    NonAsciiParam,
    /// A body was supplied for a method that sends none.
    BodyNotAllowed,
}

/// Why a single value did not match its declared shape.
#[derive(Clone, Copy, Debug, PartialEq, Eq, Structural)]
pub enum DecodeFieldError {
    /// Strict mode: the object carries a field the shape does not declare.
    UnknownField,
    /// A required field is absent.
    MissingField,
    /// A field (or the value itself) has the wrong JSON type.
    WrongFieldType,
}

/// Why a body serializer failed. The library's own serializer is total,
/// so no verified function ever returns this; it keeps the endpoint
/// signatures honest about fallible serialization.
#[derive(Clone, Copy, Debug, PartialEq, Eq, Structural)]
pub enum BodyError {
    Unserializable,
}

/// A double registration of one (kind, version) pair: a programming
/// error at startup, reported rather than absorbed.
#[derive(Clone, Copy, Debug, PartialEq, Eq, Structural)]
pub enum RegistryError {
    DuplicateRegistration,
}

/// A misbehaving server echoed the same pagination cursor twice in a row.
#[derive(Clone, Copy, Debug, PartialEq, Eq, Structural)]
pub enum PaginationProtocolError {
    RepeatedCursor,
}

/// Why the pagination driver produced no next request.
#[derive(Clone, Copy, Debug, PartialEq, Eq, Structural)]
pub enum NextPageError {
    /// The server broke the cursor protocol.
    Protocol(PaginationProtocolError),
    /// The original parameters with the cursor injected do not build.
    Construction(RequestConstructionError),
}

/// Why a webhook delivery was rejected. Each case is recoverable for the
/// caller's process: the classification says whether to alert or to skip.
#[derive(Clone, Copy, Debug, PartialEq, Eq, Structural)]
pub enum RejectReason {
    /// The received signature is not the expected one for these bytes.
    SignatureMismatch,
    /// The body is not JSON, or the outer envelope lacks its
    /// discriminator fields.
    MalformedEnvelope,
    /// The (kind, version) pair has no registration; payload decode is
    /// never attempted.
    UnregisteredKind,
    /// The pair is registered but the payload does not fit its shape.
    PayloadShapeMismatch,
}

} // verus!
