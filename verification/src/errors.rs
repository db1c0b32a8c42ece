//! Error taxonomy of the library.
//!
//! Usage errors and shortfalls are rejected before any network traffic;
//! transport and protocol failures are produced by the surrounding I/O layer
//! and carried through the library unchanged.

use vstd::prelude::*;

verus! {

/// Discriminant of an [`Error`], for callers that only branch on the kind.
#[derive(Clone, Copy, PartialEq, Eq, Structural, Debug)]
pub enum ErrorKind {
    /// Malformed amount, address, or empty input; rejected before any I/O.
    Usage,
    /// An operation needed an active funding job and none exists.
    FundingJobNotStarted,
    /// The distribution wallet holds less than the job requires.
    InsufficientFunding,
    /// A collection source wallet holds less than its share.
    InsufficientSol,
    /// The RPC transport failed or answered malformed data.
    Rpc,
    /// An unexpected or unroutable message arrived on the confirmation socket.
    Protocol,
    /// A keypair or signature could not be constructed.
    Signer,
}

/// An error of the wallet-fleet library, carrying a human-readable message.
#[derive(Debug)]
pub struct Error {
    kind: ErrorKind,
    message: String,
}

impl Error {
    pub closed spec fn spec_kind(&self) -> ErrorKind {
        self.kind
    }

    pub closed spec fn spec_message(&self) -> Seq<char> {
        self.message@
    }

    pub fn new(kind: ErrorKind, message: String) -> (e: Error)
        ensures
            e.spec_kind() == kind,
            e.spec_message() == message@,
    {
        Error { kind, message }
    }

    /// The discriminant of this error.
    pub fn kind(&self) -> (k: ErrorKind)
        ensures
            k == self.spec_kind(),
    {
        self.kind
    }

    /// The human-readable message of this error.
    pub fn message(&self) -> (m: &String)
        ensures
            m@ == self.spec_message(),
    {
        &self.message
    }
}

} // verus!
