//! The ways in which an instruction can fail.

use vstd::prelude::*;

verus! {

/// Why an instruction was refused. A refused instruction changes no account.
#[derive(Clone, Copy, Debug, PartialEq, Eq, Structural)]
pub enum ErrorKind {
    /// The call named no account at all.
    MissingAccount,
    /// The first account is owned by another program than the one invoked.
    /// Only reported where the owner is checked.
    IncorrectOwner,
    /// The account's bytes are not the encoding of a record.
    DeserializationError,
    /// The buffer that should take the record is too short for it.
    SerializationError,
}

} // verus!
