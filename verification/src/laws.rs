use crate::address::record_address;
use crate::error::IdeaProofError;
use crate::instructions::query::finding;
use crate::instructions::record::{recorded_idea, recording, records_after_recording};
use crate::state::{FileType, IdeaRecordView};
use crate::store::{all_admissible, Records};
use crate::validator::{admissible, exceeds, HASH_LENGTH, MAX_DESCRIPTION_LENGTH, MAX_TITLE_LENGTH};
use vstd::prelude::*;

verus! {

/// One request to record an idea: who asks, when, and the fields given.
pub struct Request {
    pub submitter: Seq<u8>,
    pub unix_timestamp: i64,
    pub idea_hash: Seq<char>,
    pub file_type: FileType,
    pub title: Option<Seq<char>>,
    pub description: Option<Seq<char>>,
}

/// What `record_idea` answers to `request` on a store that holds `records`.
pub open spec fn answer(records: Records, request: Request) -> Option<Result<(), IdeaProofError>> {
    recording(records, request.submitter, request.idea_hash, request.title, request.description)
}

/// What the store holds after `record_idea` has dealt with `request`.
pub open spec fn after(records: Records, request: Request) -> Records {
    records_after_recording(
        records,
        request.submitter,
        request.unix_timestamp,
        request.idea_hash,
        request.file_type,
        request.title,
        request.description,
    )
}

/// The record that `request` makes where it is recorded.
pub open spec fn record_of(request: Request) -> IdeaRecordView {
    recorded_idea(
        request.submitter,
        request.unix_timestamp,
        record_address(request.idea_hash, request.submitter).unwrap().1,
        request.idea_hash,
        request.file_type,
        request.title,
        request.description,
    )
}

/// What a store holds that was new and has dealt with `requests` in turn.
pub open spec fn after_all(requests: Seq<Request>) -> Records
    decreases requests.len(),
{
    if requests.len() == 0 {
        Map::empty()
    } else {
        after(after_all(requests.drop_last()), requests.last())
    }
}

/// Whether both pairs of hash and submitter have an address, and the same one.
pub open spec fn addresses_meet(
    idea_hash: Seq<char>,
    submitter: Seq<u8>,
    other_hash: Seq<char>,
    other_submitter: Seq<u8>,
) -> bool {
    match (record_address(idea_hash, submitter), record_address(other_hash, other_submitter)) {
        (Some((key, _)), Some((other_key, _))) => key == other_key,
        _ => false,
    }
}

/// Whether every record lives at the address that its own hash and submitter
/// derive, and carries the bump seed of that address.
pub open spec fn all_addressed(records: Records) -> bool {
    forall|key: Seq<u8>| #[trigger]
        records.contains_key(key) ==> record_address(records[key].idea_hash, records[key].submitter)
            == Some((key, records[key].bump))
}

/// A request is recorded exactly when its fields keep the rules, the pair of
/// hash and submitter has an address, and no record lives there yet.
pub proof fn lemma_recording_succeeds(records: Records, request: Request)
    ensures
        answer(records, request) == Some(Ok::<(), IdeaProofError>(())) <==> {
            &&& admissible(request.idea_hash, request.title, request.description)
            &&& record_address(request.idea_hash, request.submitter) matches Some((key, _))
            &&& !records.contains_key(key)
        },
{
}

/// An idea that was recorded is found under the same hash and submitter, with
/// every field as it was given and the time of the request.
pub proof fn lemma_recorded_idea_is_found(records: Records, request: Request)
    requires
        answer(records, request) == Some(Ok::<(), IdeaProofError>(())),
    ensures
        finding(after(records, request), request.submitter, request.idea_hash) matches Ok(found) && {
            &&& found.idea_hash == request.idea_hash
            &&& found.submitter == request.submitter
            &&& found.timestamp == request.unix_timestamp
            &&& found.file_type == request.file_type
            &&& found.title == request.title
            &&& found.description == request.description
            &&& found == record_of(request)
        },
{
}

/// A hash that does not have 64 characters is turned down with
/// `InvalidHashLength`, whatever the other fields hold, and nothing is stored.
pub proof fn lemma_wrong_hash_length_is_rejected(records: Records, request: Request)
    requires
        request.idea_hash.len() != HASH_LENGTH,
    ensures
        answer(records, request) == Some(
            Err::<(), IdeaProofError>(IdeaProofError::InvalidHashLength),
        ),
        after(records, request) == records,
{
}

/// With a hash of the right length, a title of more than 100 characters is
/// turned down with `TitleTooLong`, whatever the description holds; with a
/// title that is short enough, a description of more than 500 characters is
/// turned down with `DescriptionTooLong`. Either way nothing is stored.
pub proof fn lemma_long_texts_are_rejected(records: Records, request: Request)
    requires
        request.idea_hash.len() == HASH_LENGTH,
        exceeds(request.title, MAX_TITLE_LENGTH) || exceeds(
            request.description,
            MAX_DESCRIPTION_LENGTH,
        ),
    ensures
        answer(records, request) == Some(
            Err::<(), IdeaProofError>(
                if exceeds(request.title, MAX_TITLE_LENGTH) {
                    IdeaProofError::TitleTooLong
                } else {
                    IdeaProofError::DescriptionTooLong
                },
            ),
        ),
        after(records, request) == records,
{
}

/// Once an idea is recorded, a second request with the same hash and submitter
/// whose fields keep the rules is turned down with `IdeaHashAlreadyExists`.
/// Whatever the second request holds, the store stays as the first one left
/// it, and so does the record that is found.
pub proof fn lemma_second_recording_is_rejected(records: Records, first: Request, second: Request)
    requires
        answer(records, first) == Some(Ok::<(), IdeaProofError>(())),
        second.idea_hash == first.idea_hash,
        second.submitter == first.submitter,
    ensures
        admissible(second.idea_hash, second.title, second.description) ==> answer(
            after(records, first),
            second,
        ) == Some(Err::<(), IdeaProofError>(IdeaProofError::IdeaHashAlreadyExists)),
        after(after(records, first), second) == after(records, first),
        finding(after(after(records, first), second), first.submitter, first.idea_hash) == Ok::<
            IdeaRecordView,
            IdeaProofError,
        >(record_of(first)),
{
}

/// In a store without records nothing is found.
pub proof fn lemma_nothing_is_found_in_empty_store(submitter: Seq<u8>, idea_hash: Seq<char>)
    ensures
        finding(Map::<Seq<u8>, IdeaRecordView>::empty(), submitter, idea_hash) == Err::<
            IdeaRecordView,
            IdeaProofError,
        >(IdeaProofError::IdeaRecordNotFound),
{
}

/// An idea that is not found stays so when another pair of hash and submitter
/// is recorded, as long as the two pairs do not meet at one address.
pub proof fn lemma_unrecorded_idea_is_not_found(
    records: Records,
    submitter: Seq<u8>,
    idea_hash: Seq<char>,
    other: Request,
)
    requires
        finding(records, submitter, idea_hash) == Err::<IdeaRecordView, IdeaProofError>(
            IdeaProofError::IdeaRecordNotFound,
        ),
        !addresses_meet(idea_hash, submitter, other.idea_hash, other.submitter),
    ensures
        finding(after(records, other), submitter, idea_hash) == Err::<IdeaRecordView, IdeaProofError>(
            IdeaProofError::IdeaRecordNotFound,
        ),
{
}

/// A pair of hash and submitter that no request was made for is not found,
/// whatever else the store has dealt with since it was new, as long as none of
/// those requests meets the pair at its address.
pub proof fn lemma_never_recorded_idea_is_not_found(
    requests: Seq<Request>,
    submitter: Seq<u8>,
    idea_hash: Seq<char>,
)
    requires
        forall|i: int|
            0 <= i < requests.len() ==> !addresses_meet(
                idea_hash,
                submitter,
                (#[trigger] requests[i]).idea_hash,
                requests[i].submitter,
            ),
    ensures
        finding(after_all(requests), submitter, idea_hash) == Err::<IdeaRecordView, IdeaProofError>(
            IdeaProofError::IdeaRecordNotFound,
        ),
    decreases requests.len(),
{
    if requests.len() > 0 {
        let earlier = requests.drop_last();
        assert forall|i: int| 0 <= i < earlier.len() implies !addresses_meet(
            idea_hash,
            submitter,
            (#[trigger] earlier[i]).idea_hash,
            earlier[i].submitter,
        ) by {
            assert(earlier[i] == requests[i]);
        }
        lemma_never_recorded_idea_is_not_found(earlier, submitter, idea_hash);
        lemma_unrecorded_idea_is_not_found(after_all(earlier), submitter, idea_hash, requests.last());
    }
}

/// Two identities may record the same hash: where each has an address for it,
/// the two addresses differ and neither is taken, both requests are recorded,
/// and each identity then finds its own record.
pub proof fn lemma_identities_record_same_hash(records: Records, first: Request, second: Request)
    requires
        first.idea_hash == second.idea_hash,
        admissible(first.idea_hash, first.title, first.description),
        admissible(second.idea_hash, second.title, second.description),
        record_address(first.idea_hash, first.submitter) matches Some((key, _))
            && !records.contains_key(key),
        record_address(second.idea_hash, second.submitter) matches Some((key, _))
            && !records.contains_key(key),
        !addresses_meet(first.idea_hash, first.submitter, second.idea_hash, second.submitter),
    ensures
        answer(records, first) == Some(Ok::<(), IdeaProofError>(())),
        answer(after(records, first), second) == Some(Ok::<(), IdeaProofError>(())),
        finding(after(after(records, first), second), first.submitter, first.idea_hash) == Ok::<
            IdeaRecordView,
            IdeaProofError,
        >(record_of(first)),
        finding(after(after(records, first), second), second.submitter, second.idea_hash) == Ok::<
            IdeaRecordView,
            IdeaProofError,
        >(record_of(second)),
{
}

/// A record that is stored stays where it is and as it is, whatever is
/// requested after it.
pub proof fn lemma_records_are_permanent(records: Records, key: Seq<u8>, request: Request)
    requires
        records.contains_key(key),
    ensures
        after(records, request).contains_key(key),
        after(records, request)[key] == records[key],
{
}

/// An idea that was recorded is found as it was recorded, whatever the store
/// has dealt with since.
pub proof fn lemma_recorded_idea_stays_found(requests: Seq<Request>, i: int)
    requires
        0 <= i < requests.len(),
        answer(after_all(requests.take(i)), requests[i]) == Some(Ok::<(), IdeaProofError>(())),
    ensures
        finding(after_all(requests), requests[i].submitter, requests[i].idea_hash) == Ok::<
            IdeaRecordView,
            IdeaProofError,
        >(record_of(requests[i])),
    decreases requests.len(),
{
    let earlier = requests.drop_last();
    if i == requests.len() - 1 {
        assert(requests.take(i) == earlier);
        lemma_recorded_idea_is_found(after_all(earlier), requests[i]);
    } else {
        assert(earlier.take(i) == requests.take(i));
        assert(earlier[i] == requests[i]);
        lemma_recorded_idea_stays_found(earlier, i);
        let key = record_address(requests[i].idea_hash, requests[i].submitter).unwrap().0;
        lemma_records_are_permanent(after_all(earlier), key, requests.last());
    }
}

/// Recording keeps the rules for the fields of every record in the store.
pub proof fn lemma_recording_keeps_records_admissible(records: Records, request: Request)
    requires
        all_admissible(records),
    ensures
        all_admissible(after(records, request)),
{
}

/// Recording puts a record nowhere but at the address that its own hash and
/// submitter derive.
pub proof fn lemma_recording_keeps_records_addressed(records: Records, request: Request)
    requires
        all_addressed(records),
    ensures
        all_addressed(after(records, request)),
{
}

/// Whatever a store has dealt with since it was new, each of its records has a
/// hash of 64 characters, a title of at most 100 and a description of at most
/// 500, and lives at the address that its own hash and submitter derive.
pub proof fn lemma_store_keeps_its_rules(requests: Seq<Request>)
    ensures
        all_admissible(after_all(requests)),
        all_addressed(after_all(requests)),
    decreases requests.len(),
{
    if requests.len() > 0 {
        lemma_store_keeps_its_rules(requests.drop_last());
        lemma_recording_keeps_records_admissible(after_all(requests.drop_last()), requests.last());
        lemma_recording_keeps_records_addressed(after_all(requests.drop_last()), requests.last());
    }
}

/// Every record of a store that was filled by recording carries its submitter,
/// and is found under that submitter and its own hash.
pub proof fn lemma_addressed_record_is_found(records: Records, key: Seq<u8>)
    requires
        all_addressed(records),
        records.contains_key(key),
    ensures
        finding(records, records[key].submitter, records[key].idea_hash) == Ok::<
            IdeaRecordView,
            IdeaProofError,
        >(records[key]),
{
}

} // verus!
