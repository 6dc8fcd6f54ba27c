use crate::address::{idea_record_address, record_address};
use crate::error::IdeaProofError;
use crate::state::{text_view, FileType, IdeaRecord, IdeaRecordView};
use crate::store::{creation, records_after_creation, RecordStore, Records};
use crate::validator::{validate, validation};
use vstd::prelude::*;

verus! {

/// What comes with a request to record an idea, besides its arguments.
pub struct RecordIdea {
    /// The identity that sends the request. It has been authenticated.
    pub submitter: [u8; 32],
    /// The reading of the trusted clock, in seconds since the Unix epoch.
    pub unix_timestamp: i64,
}

/// The record that a request makes at an address with bump seed `bump`.
pub open spec fn recorded_idea(
    submitter: Seq<u8>,
    unix_timestamp: i64,
    bump: u8,
    idea_hash: Seq<char>,
    file_type: FileType,
    title: Option<Seq<char>>,
    description: Option<Seq<char>>,
) -> IdeaRecordView {
    IdeaRecordView {
        idea_hash,
        submitter,
        timestamp: unix_timestamp,
        file_type,
        title,
        description,
        bump,
    }
}

/// What `record_idea` answers on a store that holds `records`. The fields are
/// checked first; then the address is derived. `None` stands for a pair of hash
/// and submitter that has no address; otherwise the store decides.
pub open spec fn recording(
    records: Records,
    submitter: Seq<u8>,
    idea_hash: Seq<char>,
    title: Option<Seq<char>>,
    description: Option<Seq<char>>,
) -> Option<Result<(), IdeaProofError>> {
    match validation(idea_hash, title, description) {
        Err(e) => Some(Err(e)),
        Ok(_) => match record_address(idea_hash, submitter) {
            Some((key, _)) => Some(creation(records, key, idea_hash, title, description)),
            None => None,
        },
    }
}

/// What the store holds after `record_idea`: one record more where the answer
/// is `Some(Ok(()))`, at the address derived from hash and submitter, and what
/// it held before in every other case.
pub open spec fn records_after_recording(
    records: Records,
    submitter: Seq<u8>,
    unix_timestamp: i64,
    idea_hash: Seq<char>,
    file_type: FileType,
    title: Option<Seq<char>>,
    description: Option<Seq<char>>,
) -> Records {
    match record_address(idea_hash, submitter) {
        Some((key, bump)) => records_after_creation(
            records,
            key,
            recorded_idea(submitter, unix_timestamp, bump, idea_hash, file_type, title, description),
        ),
        None => records,
    }
}

/// Records `idea_hash` as an idea of the submitter of `ctx`, with the time of
/// `ctx` as the time of submission.
///
/// Fields that break a rule are turned down with the rule's error. A hash that
/// the submitter has recorded before is turned down with
/// `IdeaHashAlreadyExists`, and the earlier record stays as it is. `None` says
/// that no address could be derived for the pair; then, too, nothing is stored.
pub fn record_idea(
    ctx: &RecordIdea,
    store: &mut RecordStore,
    idea_hash: String,
    file_type: FileType,
    title: Option<String>,
    description: Option<String>,
) -> (recorded: Option<Result<(), IdeaProofError>>)
    requires
        old(store).well_formed(),
    ensures
        final(store).well_formed(),
        recorded == recording(
            old(store)@,
            ctx.submitter@,
            idea_hash@,
            text_view(title),
            text_view(description),
        ),
        final(store)@ == records_after_recording(
            old(store)@,
            ctx.submitter@,
            ctx.unix_timestamp,
            idea_hash@,
            file_type,
            text_view(title),
            text_view(description),
        ),
{
    match validate(idea_hash.as_str(), &title, &description) {
        Err(e) => {
            return Some(Err(e));
        },
        Ok(_) => {},
    }
    let address = match idea_record_address(idea_hash.as_str(), &ctx.submitter) {
        Some(address) => address,
        None => {
            return None;
        },
    };
    let idea_record = IdeaRecord {
        idea_hash,
        submitter: ctx.submitter,
        timestamp: ctx.unix_timestamp,
        file_type,
        title,
        description,
        bump: address.bump,
    };
    Some(store.create(&address.key, idea_record))
}

} // verus!
