//! The protocol's error taxonomy. Engine-boundary failures are turned into
//! these typed values at the component boundary; none of them aborts a
//! request-handling task.

use vstd::prelude::*;

verus! {

/// Every failure the protocol core can report.
#[derive(Clone, Copy, PartialEq, Eq, Structural, Debug)]
pub enum ProtocolError {
    /// The transport stayed unreachable after exhausting the configured
    /// retry attempts; carries how many attempts were made.
    ConnectionError { attempts_made: u32 },
    /// An operation that needs a generated key pair ran before generation.
    UninitializedKeyError,
    /// A serialized artifact was malformed or truncated. This can come from
    /// an untrusted peer, so it is a recoverable result, never an abort.
    DecodeError,
    /// Artifacts from incompatible contexts (different parameters, a
    /// ciphertext under a foreign key, or an exhausted depth budget) were
    /// combined. The external engine would silently produce garbage here;
    /// the protocol detects and rejects the case instead.
    SchemeMismatchError,
}

} // verus!
