use crate::error::IdeaProofError;
use vstd::prelude::*;
use vstd::string::StrSliceExecFns;

verus! {

/// Characters of a content hash: a 256-bit digest written in hex.
pub const HASH_LENGTH: usize = 64;

/// The most characters that a title may have.
pub const MAX_TITLE_LENGTH: usize = 100;

/// The most characters that a description may have.
pub const MAX_DESCRIPTION_LENGTH: usize = 500;

/// Whether an optional text is there and has more than `limit` characters.
pub open spec fn exceeds(text: Option<Seq<char>>, limit: usize) -> bool {
    match text {
        Some(s) => s.len() > limit,
        None => false,
    }
}

/// What the validator answers: the first rule that fails, in the order hash,
/// title, description.
pub open spec fn validation(
    idea_hash: Seq<char>,
    title: Option<Seq<char>>,
    description: Option<Seq<char>>,
) -> Result<(), IdeaProofError> {
    if idea_hash.len() != HASH_LENGTH {
        Err(IdeaProofError::InvalidHashLength)
    } else if exceeds(title, MAX_TITLE_LENGTH) {
        Err(IdeaProofError::TitleTooLong)
    } else if exceeds(description, MAX_DESCRIPTION_LENGTH) {
        Err(IdeaProofError::DescriptionTooLong)
    } else {
        Ok(())
    }
}

/// Whether the three fields may stand in a record.
pub open spec fn admissible(
    idea_hash: Seq<char>,
    title: Option<Seq<char>>,
    description: Option<Seq<char>>,
) -> bool {
    &&& idea_hash.len() == HASH_LENGTH
    &&& !exceeds(title, MAX_TITLE_LENGTH)
    &&& !exceeds(description, MAX_DESCRIPTION_LENGTH)
}

/// Whether `text` is there and has more than `limit` characters.
fn is_too_long(text: &Option<String>, limit: usize) -> (too_long: bool)
    ensures
        too_long == exceeds(crate::state::text_view(*text), limit),
{
    match text {
        Some(s) => s.as_str().unicode_len() > limit,
        None => false,
    }
}

/// Holds the fields of a request against the rules for a record: the hash has
/// exactly 64 characters, a title at most 100, a description at most 500.
/// The first rule that fails, in that order, decides the error.
pub fn validate(idea_hash: &str, title: &Option<String>, description: &Option<String>) -> (checked:
    Result<(), IdeaProofError>)
    ensures
        checked == validation(
            idea_hash@,
            crate::state::text_view(*title),
            crate::state::text_view(*description),
        ),
{
    if idea_hash.unicode_len() != HASH_LENGTH {
        return Err(IdeaProofError::InvalidHashLength);
    }
    if is_too_long(title, MAX_TITLE_LENGTH) {
        return Err(IdeaProofError::TitleTooLong);
    }
    if is_too_long(description, MAX_DESCRIPTION_LENGTH) {
        return Err(IdeaProofError::DescriptionTooLong);
    }
    Ok(())
}

/// The validator accepts exactly the admissible fields.
pub proof fn lemma_validation_accepts_admissible(
    idea_hash: Seq<char>,
    title: Option<Seq<char>>,
    description: Option<Seq<char>>,
)
    ensures
        validation(idea_hash, title, description) is Ok <==> admissible(
            idea_hash,
            title,
            description,
        ),
{
}

} // verus!
