use crate::address::{idea_record_address, record_address};
use crate::error::IdeaProofError;
use crate::state::{IdeaRecord, IdeaRecordView};
use crate::store::{found_view, lookup, RecordStore, Records};
use vstd::prelude::*;

verus! {

/// What comes with a request for one record.
pub struct GetIdeaByHash {
    /// The identity whose record is asked for.
    pub submitter: [u8; 32],
}

/// What comes with a request for all records of one identity.
pub struct GetIdeasByUser {
    /// The identity whose records are asked for.
    pub user: [u8; 32],
}

/// What `get_idea_by_hash` answers on a store that holds `records`: the record
/// at the address derived from hash and submitter. A pair without an address
/// has no record.
pub open spec fn finding(records: Records, submitter: Seq<u8>, idea_hash: Seq<char>) -> Result<
    IdeaRecordView,
    IdeaProofError,
> {
    match record_address(idea_hash, submitter) {
        Some((key, _)) => lookup(records, key),
        None => Err(IdeaProofError::IdeaRecordNotFound),
    }
}

/// Looks up the record of `idea_hash` under the submitter of `ctx`. Where the
/// submitter has recorded no such hash the answer is `IdeaRecordNotFound`. The
/// store is only read.
pub fn get_idea_by_hash<'a>(ctx: &GetIdeaByHash, store: &'a RecordStore, idea_hash: String) -> (found:
    Result<&'a IdeaRecord, IdeaProofError>)
    requires
        store.well_formed(),
    ensures
        found_view(found) == finding(store@, ctx.submitter@, idea_hash@),
{
    match idea_record_address(idea_hash.as_str(), &ctx.submitter) {
        Some(address) => store.get(&address.key),
        None => Err(IdeaProofError::IdeaRecordNotFound),
    }
}

/// Takes note of a request for all records of one identity. The registry keeps
/// no list by identity and walks no records: whoever holds the stored records
/// finds those of `ctx.user` by the identity that each record carries. So the
/// request always succeeds and changes nothing.
pub fn get_ideas_by_user(ctx: &GetIdeasByUser) -> (noted: Result<(), IdeaProofError>)
    ensures
        noted == Ok::<(), IdeaProofError>(()),
{
    Ok(())
}

} // verus!
