use crate::state::{get_idea_record_seeds, idea_record_seeds};
use vstd::prelude::*;
use vstd::slice::{slice_subrange, slice_to_vec};

verus! {

/// The program that owns the records: every address is derived under it.
pub const ID: [u8; 32] = [
    218, 7, 92, 178, 255, 94, 198, 129, 118, 19, 222, 83, 11, 105, 42, 135,
    53, 71, 119, 105, 218, 71, 67, 12, 189, 129, 84, 51, 92, 74, 131, 39,
];

/// The most bytes that one seed of an address may have.
pub const MAX_SEED_LEN: usize = 32;

/// Where a record lives, and the bump seed that proves the place was derived
/// and not chosen.
#[derive(Clone, Copy, Debug, PartialEq, Eq)]
pub struct StorageAddress {
    pub key: [u8; 32],
    pub bump: u8,
}

impl View for StorageAddress {
    type V = (Seq<u8>, u8);

    open spec fn view(&self) -> (Seq<u8>, u8) {
        (self.key@, self.bump)
    }
}

/// The view of an address that may be missing.
pub open spec fn address_view(address: Option<StorageAddress>) -> Option<(Seq<u8>, u8)> {
    match address {
        Some(a) => Some(a@),
        None => None,
    }
}

/// The bytes of each seed of a list.
pub open spec fn seeds_view(seeds: Seq<Vec<u8>>) -> Seq<Seq<u8>> {
    seeds.map_values(|seed: Vec<u8>| seed@)
}

/// The program address that `seeds` have under `program_id`, with its bump
/// seed, or `None` where they have none.
pub uninterp spec fn program_address(seeds: Seq<Seq<u8>>, program_id: Seq<u8>) -> Option<(Seq<u8>, u8)>;

/// `Pubkey::try_find_program_address` of solana-program, as anchor-lang hands
/// it on. It hashes the seeds one after the other, then a bump seed, the
/// program id and a marker, and lets the bump seed run down from 255 until the
/// digest is no point of the ed25519 curve. Nothing but its arguments goes into
/// the result, so the result has a name; the contract claims no more than that,
/// and in particular not that an address is found.
#[verifier::external_body]
fn try_find_program_address(seeds: &Vec<Vec<u8>>, program_id: &[u8; 32]) -> (found: Option<StorageAddress>)
    ensures
        address_view(found) == program_address(seeds_view(seeds@), program_id@),
{
    let mut parts: Vec<&[u8]> = Vec::new();
    for seed in seeds {
        parts.push(seed.as_slice());
    }
    let program = anchor_lang::prelude::Pubkey::new_from_array(*program_id);
    match anchor_lang::prelude::Pubkey::try_find_program_address(&parts, &program) {
        Some((key, bump)) => Some(StorageAddress { key: key.to_bytes(), bump }),
        None => None,
    }
}

/// `seed` cut into pieces of `MAX_SEED_LEN` bytes, the last one holding what is
/// left. A seed that is short enough is its own single piece.
pub open spec fn seed_pieces(seed: Seq<u8>) -> Seq<Seq<u8>>
    decreases seed.len(),
{
    if seed.len() <= MAX_SEED_LEN {
        seq![seed]
    } else {
        seq![seed.take(MAX_SEED_LEN as int)] + seed_pieces(seed.skip(MAX_SEED_LEN as int))
    }
}

/// Cuts a seed into pieces that are each short enough to be a seed.
pub fn split_seed(seed: &[u8]) -> (pieces: Vec<Vec<u8>>)
    ensures
        seeds_view(pieces@) == seed_pieces(seed@),
{
    let mut pieces: Vec<Vec<u8>> = Vec::new();
    let mut start: usize = 0;
    proof {
        assert(seed@.skip(0) =~= seed@);
        assert(seeds_view(pieces@) + seed_pieces(seed@) =~= seed_pieces(seed@));
    }
    while seed.len() - start > MAX_SEED_LEN
        invariant
            start <= seed@.len(),
            seeds_view(pieces@) + seed_pieces(seed@.skip(start as int)) == seed_pieces(seed@),
        decreases seed@.len() - start,
    {
        let piece = slice_to_vec(slice_subrange(seed, start, start + MAX_SEED_LEN));
        proof {
            let rest = seed@.skip(start as int);
            assert(rest.take(MAX_SEED_LEN as int) =~= piece@);
            assert(rest.skip(MAX_SEED_LEN as int) =~= seed@.skip(start + MAX_SEED_LEN));
            assert(seeds_view(pieces@.push(piece)) =~= seeds_view(pieces@) + seq![piece@]);
            assert(seeds_view(pieces@.push(piece)) + seed_pieces(rest.skip(MAX_SEED_LEN as int))
                =~= seeds_view(pieces@) + seed_pieces(rest));
        }
        pieces.push(piece);
        start += MAX_SEED_LEN;
    }
    let last = slice_to_vec(slice_subrange(seed, start, seed.len()));
    proof {
        assert(seed@.skip(start as int) =~= last@);
        assert(seeds_view(pieces@.push(last)) =~= seeds_view(pieces@) + seq![last@]);
    }
    pieces.push(last);
    pieces
}

/// The seeds that are hashed for an address: tag, hash and identity, each cut
/// into pieces that are short enough. Cutting changes nothing in the bytes
/// that are hashed, nor their order.
pub open spec fn address_seeds(namespace_tag: Seq<u8>, content_hash: Seq<u8>, submitter: Seq<u8>) -> Seq<
    Seq<u8>,
> {
    seed_pieces(namespace_tag) + seed_pieces(content_hash) + seed_pieces(submitter)
}

/// The address that stands for `content_hash` under `submitter` among the
/// records that are tagged `namespace_tag`, where there is one.
pub open spec fn derived_address(
    namespace_tag: Seq<u8>,
    content_hash: Seq<u8>,
    submitter: Seq<u8>,
) -> Option<(Seq<u8>, u8)> {
    program_address(address_seeds(namespace_tag, content_hash, submitter), ID@)
}

/// Derives the address that stands for `content_hash` under `submitter` among
/// the records that are tagged `namespace_tag`. The same three values always
/// give the same answer, and nothing else goes into it. `None` says that they
/// have no address.
pub fn derive(namespace_tag: &[u8], content_hash: &[u8], submitter: &[u8]) -> (address: Option<
    StorageAddress,
>)
    ensures
        address_view(address) == derived_address(namespace_tag@, content_hash@, submitter@),
{
    let mut parts = split_seed(namespace_tag);
    let mut hash_parts = split_seed(content_hash);
    let mut submitter_parts = split_seed(submitter);
    proof {
        assert(seeds_view(parts@ + hash_parts@ + submitter_parts@) =~= address_seeds(
            namespace_tag@,
            content_hash@,
            submitter@,
        ));
    }
    parts.append(&mut hash_parts);
    parts.append(&mut submitter_parts);
    try_find_program_address(&parts, &ID)
}

/// The address of the record of `idea_hash` under `submitter`, where there is
/// one: the address that the record's seeds derive.
pub open spec fn record_address(idea_hash: Seq<char>, submitter: Seq<u8>) -> Option<(Seq<u8>, u8)> {
    let seeds = idea_record_seeds(idea_hash, submitter);
    derived_address(seeds[0], seeds[1], seeds[2])
}

/// Derives the address at which the record of `idea_hash` under `submitter`
/// lives.
pub fn idea_record_address(idea_hash: &str, submitter: &[u8; 32]) -> (address: Option<StorageAddress>)
    ensures
        address_view(address) == record_address(idea_hash@, submitter@),
{
    let seeds = get_idea_record_seeds(idea_hash, submitter);
    proof {
        let given = seeds@.map_values(|seed: &[u8]| seed@);
        assert(given[0] == seeds[0]@ && given[1] == seeds[1]@ && given[2] == seeds[2]@);
    }
    crate::address::derive(seeds[0], seeds[1], seeds[2])
}

} // verus!
