use vstd::prelude::*;
use vstd::string::StringSliceAdditionalSpecFns;

verus! {

/// The tag that opens the seeds of every idea record (the ASCII text
/// `idea_record`), so that its address never meets that of another kind of
/// record under the same program.
pub const IDEA_RECORD_SEED: [u8; 11] = [105, 100, 101, 97, 95, 114, 101, 99, 111, 114, 100];

/// Bytes that open every stored account and tell its kind.
pub const DISCRIMINATOR_SIZE: usize = 8;

/// Bytes of the length that goes before the bytes of a stored string.
pub const STRING_PREFIX_SIZE: usize = 4;

/// Bytes of a stored identity.
pub const PUBKEY_SIZE: usize = 32;

/// Bytes of a stored timestamp.
pub const TIMESTAMP_SIZE: usize = 8;

/// The kind of content that a recorded hash stands for.
#[derive(Clone, Copy, Debug, PartialEq, Eq, Structural)]
pub enum FileType {
    Text,
    Image,
    Video,
    Audio,
    Code,
    Other,
}

impl Default for FileType {
    fn default() -> (kind: Self)
        ensures
            kind == FileType::Text,
    {
        FileType::Text
    }
}

/// One proof of authorship: a content hash, who submitted it and when.
#[derive(Clone, Debug, PartialEq, Eq)]
pub struct IdeaRecord {
    /// The digest of the content, 64 characters of hex.
    pub idea_hash: String,
    /// The identity that submitted the hash.
    pub submitter: [u8; 32],
    /// Seconds since the Unix epoch at which the record was made.
    pub timestamp: i64,
    /// What the content is.
    pub file_type: FileType,
    /// At most 100 characters.
    pub title: Option<String>,
    /// At most 500 characters.
    pub description: Option<String>,
    /// The bump seed with which the record's address was derived.
    pub bump: u8,
}

/// What an [`IdeaRecord`] holds, as mathematical values.
pub struct IdeaRecordView {
    pub idea_hash: Seq<char>,
    pub submitter: Seq<u8>,
    pub timestamp: i64,
    pub file_type: FileType,
    pub title: Option<Seq<char>>,
    pub description: Option<Seq<char>>,
    pub bump: u8,
}

/// The characters of an optional text.
pub open spec fn text_view(text: Option<String>) -> Option<Seq<char>> {
    match text {
        Some(s) => Some(s@),
        None => None,
    }
}

impl View for IdeaRecord {
    type V = IdeaRecordView;

    open spec fn view(&self) -> IdeaRecordView {
        IdeaRecordView {
            idea_hash: self.idea_hash@,
            submitter: self.submitter@,
            timestamp: self.timestamp,
            file_type: self.file_type,
            title: text_view(self.title),
            description: text_view(self.description),
            bump: self.bump,
        }
    }
}

/// The three seeds that name the record of `idea_hash` under `submitter`:
/// the tag, the bytes of the hash, the bytes of the identity.
pub open spec fn idea_record_seeds(idea_hash: Seq<char>, submitter: Seq<u8>) -> Seq<Seq<u8>> {
    seq![IDEA_RECORD_SEED@, vstd::utf8::encode_utf8(idea_hash), submitter]
}

/// The seeds from which the address of a record is derived.
pub fn get_idea_record_seeds<'a>(idea_hash: &'a str, submitter: &'a [u8; 32]) -> (seeds: [&'a [u8]; 3])
    ensures
        seeds@.map_values(|seed: &[u8]| seed@) == idea_record_seeds(idea_hash@, submitter@),
{
    let seeds = [IDEA_RECORD_SEED.as_slice(), idea_hash.as_bytes(), submitter.as_slice()];
    assert(seeds@.map_values(|seed: &[u8]| seed@) =~= idea_record_seeds(idea_hash@, submitter@));
    seeds
}

/// Bytes that an optional string of `len` bytes takes when stored: one byte
/// that tells whether it is there, then the prefix and the bytes themselves.
pub open spec fn optional_string_size(len: Option<usize>) -> int {
    match len {
        Some(n) => 1 + STRING_PREFIX_SIZE + n,
        None => 1,
    }
}

/// Bytes that a stored record takes whose hash, title and description have
/// the given lengths in bytes.
pub open spec fn idea_record_size(
    idea_hash_len: usize,
    title_len: Option<usize>,
    description_len: Option<usize>,
) -> int {
    DISCRIMINATOR_SIZE + (STRING_PREFIX_SIZE + idea_hash_len) + PUBKEY_SIZE + TIMESTAMP_SIZE + 1
        + optional_string_size(title_len) + optional_string_size(description_len) + 1
}

/// The space that the account of a record needs.
pub fn get_idea_record_size(
    idea_hash_len: usize,
    title_len: Option<usize>,
    description_len: Option<usize>,
) -> (size: usize)
    requires
        idea_record_size(idea_hash_len, title_len, description_len) <= usize::MAX,
    ensures
        size == idea_record_size(idea_hash_len, title_len, description_len),
{
    let title_size: usize = match title_len {
        Some(len) => 1 + STRING_PREFIX_SIZE + len,
        None => 1,
    };
    let description_size: usize = match description_len {
        Some(len) => 1 + STRING_PREFIX_SIZE + len,
        None => 1,
    };
    DISCRIMINATOR_SIZE + STRING_PREFIX_SIZE + idea_hash_len + PUBKEY_SIZE + TIMESTAMP_SIZE + 1
        + title_size + description_size + 1
}

} // verus!
