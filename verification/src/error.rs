//! The errors that serializing into URL parameters can produce.

use vstd::prelude::*;

verus! {

/// Represents all possible errors that can occur when serializing into URL
/// parameters.
#[derive(Debug)]
pub enum Error {
    /// A failure outside the serializer itself, such as a sink or an
    /// encoding step that refused the bytes; the payload is its message.
    Extern(String),
    /// A structural shape that a flat parameter list cannot express; the
    /// payload names the shape.
    Unsupported(String),
    /// A failure signalled by the value being serialized, passed through
    /// unchanged.
    Custom(String),
}

impl Error {
    /// Creates a new error when a type is not supported for serializing into
    /// URL parameters.
    pub fn unsupported(msg: &str) -> (r: Error)
        ensures
            r matches Error::Unsupported(m) && m@ == msg@,
    {
        Error::Unsupported(msg.to_owned())
    }
}

} // verus!
