//! Failure kinds shared across the session runtime.

use vstd::prelude::*;

verus! {

/// The unified error taxonomy.
///
/// Errors raised by the transport, by key loading, or by the operating
/// system are carried as their rendered messages; the remaining variants
/// are raised by the runtime itself.
#[derive(Debug, Clone, PartialEq, Eq)]
pub enum Error {
    /// A wrapped transport-level protocol or crypto failure.
    Ssh(String),
    /// A failure loading or parsing identity material.
    Keys(String),
    /// An underlying operating-system I/O failure.
    Io(String),
    /// A protocol invariant of the runtime itself was violated.
    Protocol(String),
    /// The server was asked to run with incomplete configuration.
    Config(String),
    /// A size conversion overflowed the width an adapter expects.
    Int(String),
}

impl Error {
    /// The error raised when a size does not fit the expected width.
    pub fn int_conversion() -> (r: Self)
        ensures
            r is Int,
            r.text() == "out of range integral type conversion attempted"@,
    {
        Error::Int(String::from_str("out of range integral type conversion attempted"))
    }

    /// The rendered message carried by this error.
    pub fn message(&self) -> (r: &String)
        ensures
            r@ == self.text(),
    {
        match self {
            Error::Ssh(m) => m,
            Error::Keys(m) => m,
            Error::Io(m) => m,
            Error::Protocol(m) => m,
            Error::Config(m) => m,
            Error::Int(m) => m,
        }
    }

    /// The message carried by this error, whatever its kind.
    pub open spec fn text(&self) -> Seq<char> {
        match self {
            Error::Ssh(m) => m@,
            Error::Keys(m) => m@,
            Error::Io(m) => m@,
            Error::Protocol(m) => m@,
            Error::Config(m) => m@,
            Error::Int(m) => m@,
        }
    }
}

} // verus!
