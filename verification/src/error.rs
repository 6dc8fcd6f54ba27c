use vstd::prelude::*;

verus! {

/// Why a request on the registry was turned down.
#[derive(Clone, Copy, Debug, PartialEq, Eq, Structural)]
pub enum IdeaProofError {
    /// The content hash is not 64 characters long.
    InvalidHashLength,
    /// The submitter has already recorded this content hash.
    IdeaHashAlreadyExists,
    /// The title is longer than 100 characters.
    TitleTooLong,
    /// The description is longer than 500 characters.
    DescriptionTooLong,
    /// The submitter has no record for this content hash.
    IdeaRecordNotFound,
    /// The caller does not own the record. No operation of the registry raises it yet.
    Unauthorized,
}

} // verus!
