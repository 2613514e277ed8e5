use vstd::prelude::*;

verus! {

/// Why a creation or an update was refused. Every refusal leaves the stored
/// record as it was.
#[derive(Debug, Clone, Copy, PartialEq, Eq, Structural)]
pub enum ErrorCode {
    /// The presented admin identity signed, but is not the stored admin.
    Unauthorized,
    /// The identity that must sign the request did not.
    MissingSignature,
    /// Creation found the record already allocated.
    AlreadyExists,
    /// No record is stored at the config address.
    NotFound,
    /// The stored bytes are not a config record.
    Corrupt,
    /// The account handed in is not the one derived from the config seed.
    AddressMismatch,
}

} // verus!
