//! Everything that can abort a call. An error is terminal for its call: the
//! host discards all writes attempted during the call, so every operation
//! here returns before writing anything once a failure is detected.

use vstd::prelude::*;

verus! {

#[derive(Clone, Debug, PartialEq, Eq)]
pub enum ContractError {
    /// A storage record could not be read back in the shape the declared
    /// schema version promises; surfaced verbatim, never downgraded.
    StdErr { msg: String },
    /// The acting identity is not the stored owner; carries the owner so the
    /// caller learns who may act.
    UnauthorizedErr { owner: String },
    /// The given receiver is not a well-formed identity.
    InvalidAddressErr { address: String },
    /// Migration found metadata written by a different contract; carries the
    /// expected name.
    InvalidName { contract: String },
    /// Migration found a schema version this chain does not know; carries the
    /// unrecognized version.
    InvalidVersion { version: String },
}

} // verus!
