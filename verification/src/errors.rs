//! The error kinds a client operation can report.

use vstd::prelude::*;

verus! {

/// Everything that can go wrong while connecting to the server or running a
/// statement. Every variant but `EmptyResultError` carries the human-facing
/// message text.
#[derive(Debug)]
pub enum ClientError {
    /// The endpoint could not be built or the transport connect failed.
    ConnectionError(String),
    /// The TLS trust configuration could not be built from the certificate.
    TlsConfigError(String),
    /// The credential handshake was rejected.
    HandshakeError(String),
    /// The server rejected the statement, or its response was malformed.
    ExecutionError(String),
    /// A result stream yielded zero batches.
    EmptyResultError,
    /// The TLS certificate file could not be read.
    FileError(String),
}

impl ClientError {
    /// The message text carried by the error, or an empty string for
    /// `EmptyResultError`.
    pub fn message(&self) -> (r: &str)
        ensures
            r@ == self.spec_message(),
    {
        match self {
            ClientError::ConnectionError(m) => m.as_str(),
            ClientError::TlsConfigError(m) => m.as_str(),
            ClientError::HandshakeError(m) => m.as_str(),
            ClientError::ExecutionError(m) => m.as_str(),
            ClientError::EmptyResultError => {
                proof {
                    reveal_strlit("");
                }
                ""
            },
            ClientError::FileError(m) => m.as_str(),
        }
    }

    /// What `message` returns for each variant.
    pub open spec fn spec_message(&self) -> Seq<char> {
        match self {
            ClientError::ConnectionError(m) => m@,
            ClientError::TlsConfigError(m) => m@,
            ClientError::HandshakeError(m) => m@,
            ClientError::ExecutionError(m) => m@,
            ClientError::EmptyResultError => Seq::<char>::empty(),
            ClientError::FileError(m) => m@,
        }
    }
}

} // verus!
