use ideaproof::address::{idea_record_address, StorageAddress};
use ideaproof::error::IdeaProofError;
use ideaproof::instructions::query::{get_idea_by_hash, get_ideas_by_user, GetIdeaByHash, GetIdeasByUser};
use ideaproof::instructions::record::{record_idea, RecordIdea};
use ideaproof::state::{FileType, IdeaRecord};
use ideaproof::store::RecordStore;

fn hash_of(c: char) -> String {
    std::iter::repeat(c).take(64).collect()
}

fn identity(n: u8) -> [u8; 32] {
    let mut key = [0u8; 32];
    key[0] = n;
    key[31] = 0xA5;
    key
}

fn submit(
    store: &mut RecordStore,
    who: [u8; 32],
    at: i64,
    hash: &str,
    kind: FileType,
    title: Option<&str>,
    description: Option<&str>,
) -> Option<Result<(), IdeaProofError>> {
    let ctx = RecordIdea { submitter: who, unix_timestamp: at };
    record_idea(
        &ctx,
        store,
        hash.to_string(),
        kind,
        title.map(|t| t.to_string()),
        description.map(|d| d.to_string()),
    )
}

fn find(store: &RecordStore, who: [u8; 32], hash: &str) -> Result<IdeaRecord, IdeaProofError> {
    let ctx = GetIdeaByHash { submitter: who };
    get_idea_by_hash(&ctx, store, hash.to_string()).map(|record| record.clone())
}

#[test]
fn recorded_idea_is_found_with_its_title() {
    let mut store = RecordStore::new();
    let hash = hash_of('a');
    let made = submit(&mut store, identity(1), 1_700_000_000, &hash, FileType::Text, Some("My Idea"), None);
    assert_eq!(made, Some(Ok(())));
    let found = find(&store, identity(1), &hash).unwrap();
    assert_eq!(found.title, Some("My Idea".to_string()));
    assert_eq!(found.description, None);
}

#[test]
fn recorded_idea_keeps_every_field() {
    let mut store = RecordStore::new();
    let hash = "0123456789abcdef0123456789abcdef0123456789abcdef0123456789abcdef";
    let made = submit(
        &mut store,
        identity(7),
        -42,
        hash,
        FileType::Video,
        Some("A film"),
        Some("Ninety minutes of it"),
    );
    assert_eq!(made, Some(Ok(())));
    let found = find(&store, identity(7), hash).unwrap();
    let address: StorageAddress = idea_record_address(hash, &identity(7)).unwrap();
    assert_eq!(
        found,
        IdeaRecord {
            idea_hash: hash.to_string(),
            submitter: identity(7),
            timestamp: -42,
            file_type: FileType::Video,
            title: Some("A film".to_string()),
            description: Some("Ninety minutes of it".to_string()),
            bump: address.bump,
        }
    );
}

#[test]
fn every_file_type_is_stored_as_given() {
    let kinds = [
        FileType::Text,
        FileType::Image,
        FileType::Video,
        FileType::Audio,
        FileType::Code,
        FileType::Other,
    ];
    let mut store = RecordStore::new();
    for (i, kind) in kinds.iter().enumerate() {
        let who = identity(i as u8);
        assert_eq!(submit(&mut store, who, 0, &hash_of('c'), *kind, None, None), Some(Ok(())));
        assert_eq!(find(&store, who, &hash_of('c')).unwrap().file_type, *kind);
    }
}

#[test]
fn wrong_hash_length_is_rejected_and_nothing_is_stored() {
    for len in [0usize, 1, 32, 63, 65, 128] {
        let mut store = RecordStore::new();
        let hash: String = std::iter::repeat('a').take(len).collect();
        let made = submit(&mut store, identity(1), 0, &hash, FileType::Text, None, None);
        assert_eq!(made, Some(Err(IdeaProofError::InvalidHashLength)));
        assert_eq!(find(&store, identity(1), &hash), Err(IdeaProofError::IdeaRecordNotFound));
    }
}

#[test]
fn long_title_is_rejected() {
    let mut store = RecordStore::new();
    let title: String = std::iter::repeat('t').take(101).collect();
    let made = submit(&mut store, identity(1), 0, &hash_of('a'), FileType::Text, Some(&title), None);
    assert_eq!(made, Some(Err(IdeaProofError::TitleTooLong)));
    assert_eq!(find(&store, identity(1), &hash_of('a')), Err(IdeaProofError::IdeaRecordNotFound));
}

#[test]
fn long_description_is_rejected() {
    let mut store = RecordStore::new();
    let description: String = std::iter::repeat('d').take(501).collect();
    let made = submit(&mut store, identity(1), 0, &hash_of('a'), FileType::Text, Some("ok"), Some(&description));
    assert_eq!(made, Some(Err(IdeaProofError::DescriptionTooLong)));
    assert_eq!(find(&store, identity(1), &hash_of('a')), Err(IdeaProofError::IdeaRecordNotFound));
}

#[test]
fn texts_at_their_limits_are_recorded() {
    let mut store = RecordStore::new();
    let title: String = std::iter::repeat('t').take(100).collect();
    let description: String = std::iter::repeat('d').take(500).collect();
    let made = submit(&mut store, identity(1), 0, &hash_of('a'), FileType::Text, Some(&title), Some(&description));
    assert_eq!(made, Some(Ok(())));
    let found = find(&store, identity(1), &hash_of('a')).unwrap();
    assert_eq!(found.title, Some(title));
    assert_eq!(found.description, Some(description));
}

#[test]
fn empty_texts_are_recorded() {
    let mut store = RecordStore::new();
    let made = submit(&mut store, identity(1), 0, &hash_of('a'), FileType::Text, Some(""), Some(""));
    assert_eq!(made, Some(Ok(())));
    let found = find(&store, identity(1), &hash_of('a')).unwrap();
    assert_eq!(found.title, Some(String::new()));
    assert_eq!(found.description, Some(String::new()));
}

#[test]
fn rules_are_checked_in_order() {
    let mut store = RecordStore::new();
    let title: String = std::iter::repeat('t').take(101).collect();
    let description: String = std::iter::repeat('d').take(501).collect();
    let short = "abc";
    assert_eq!(
        submit(&mut store, identity(1), 0, short, FileType::Text, Some(&title), Some(&description)),
        Some(Err(IdeaProofError::InvalidHashLength))
    );
    assert_eq!(
        submit(&mut store, identity(1), 0, &hash_of('a'), FileType::Text, Some(&title), Some(&description)),
        Some(Err(IdeaProofError::TitleTooLong))
    );
    assert_eq!(
        submit(&mut store, identity(1), 0, &hash_of('a'), FileType::Text, None, Some(&description)),
        Some(Err(IdeaProofError::DescriptionTooLong))
    );
}

#[test]
fn rules_come_before_the_check_for_an_earlier_record() {
    let mut store = RecordStore::new();
    let title: String = std::iter::repeat('t').take(101).collect();
    assert_eq!(submit(&mut store, identity(1), 0, &hash_of('a'), FileType::Text, None, None), Some(Ok(())));
    assert_eq!(
        submit(&mut store, identity(1), 0, &hash_of('a'), FileType::Text, Some(&title), None),
        Some(Err(IdeaProofError::TitleTooLong))
    );
}

#[test]
fn second_recording_is_rejected_and_first_record_stays() {
    let mut store = RecordStore::new();
    let hash = hash_of('b');
    assert_eq!(
        submit(&mut store, identity(1), 100, &hash, FileType::Code, Some("first"), Some("one")),
        Some(Ok(()))
    );
    let first = find(&store, identity(1), &hash).unwrap();
    assert_eq!(
        submit(&mut store, identity(1), 200, &hash, FileType::Audio, Some("second"), None),
        Some(Err(IdeaProofError::IdeaHashAlreadyExists))
    );
    let after = find(&store, identity(1), &hash).unwrap();
    assert_eq!(after, first);
    assert_eq!(after.timestamp, 100);
    assert_eq!(after.file_type, FileType::Code);
    assert_eq!(after.title, Some("first".to_string()));
    assert_eq!(after.description, Some("one".to_string()));
}

#[test]
fn unrecorded_idea_is_not_found() {
    let mut store = RecordStore::new();
    assert_eq!(find(&store, identity(1), &hash_of('a')), Err(IdeaProofError::IdeaRecordNotFound));
    assert_eq!(submit(&mut store, identity(1), 0, &hash_of('a'), FileType::Text, None, None), Some(Ok(())));
    assert_eq!(find(&store, identity(1), &hash_of('b')), Err(IdeaProofError::IdeaRecordNotFound));
    assert_eq!(find(&store, identity(2), &hash_of('a')), Err(IdeaProofError::IdeaRecordNotFound));
}

#[test]
fn two_identities_record_the_same_hash() {
    let mut store = RecordStore::new();
    let hash = hash_of('f');
    assert_eq!(submit(&mut store, identity(1), 10, &hash, FileType::Text, Some("mine"), None), Some(Ok(())));
    assert_eq!(submit(&mut store, identity(2), 20, &hash, FileType::Image, Some("also mine"), None), Some(Ok(())));
    let first = find(&store, identity(1), &hash).unwrap();
    let second = find(&store, identity(2), &hash).unwrap();
    assert_eq!(first.submitter, identity(1));
    assert_eq!(first.title, Some("mine".to_string()));
    assert_eq!(first.timestamp, 10);
    assert_eq!(second.submitter, identity(2));
    assert_eq!(second.title, Some("also mine".to_string()));
    assert_eq!(second.timestamp, 20);
}

#[test]
fn one_identity_records_many_hashes() {
    let mut store = RecordStore::new();
    let hashes: Vec<String> = "0123456789abcdef".chars().map(hash_of).collect();
    for (i, hash) in hashes.iter().enumerate() {
        assert_eq!(submit(&mut store, identity(9), i as i64, hash, FileType::Other, None, None), Some(Ok(())));
    }
    for (i, hash) in hashes.iter().enumerate() {
        let found = find(&store, identity(9), hash).unwrap();
        assert_eq!(found.idea_hash, *hash);
        assert_eq!(found.submitter, identity(9));
        assert_eq!(found.timestamp, i as i64);
    }
}

#[test]
fn every_record_is_found_by_what_it_carries() {
    let mut store = RecordStore::new();
    let mut made = Vec::new();
    for who in 0u8..4 {
        for c in ['a', 'b', 'c'] {
            assert_eq!(
                submit(&mut store, identity(who), 1, &hash_of(c), FileType::Text, None, None),
                Some(Ok(()))
            );
            made.push(find(&store, identity(who), &hash_of(c)).unwrap());
        }
    }
    for record in made {
        let again = find(&store, record.submitter, &record.idea_hash).unwrap();
        assert_eq!(again, record);
        let address = idea_record_address(&record.idea_hash, &record.submitter).unwrap();
        assert_eq!(again.bump, address.bump);
        assert_eq!(store.get(&address.key), Ok(&record));
    }
}

#[test]
fn lengths_are_counted_in_characters() {
    let mut store = RecordStore::new();
    let title: String = std::iter::repeat('é').take(100).collect();
    let long_title: String = std::iter::repeat('é').take(101).collect();
    assert_eq!(
        submit(&mut store, identity(1), 0, &hash_of('a'), FileType::Text, Some(&long_title), None),
        Some(Err(IdeaProofError::TitleTooLong))
    );
    assert_eq!(
        submit(&mut store, identity(1), 0, &hash_of('a'), FileType::Text, Some(&title), None),
        Some(Ok(()))
    );
    assert_eq!(find(&store, identity(1), &hash_of('a')).unwrap().title, Some(title));
}

#[test]
fn store_creates_once_at_an_address() {
    let mut store = RecordStore::new();
    let key = [3u8; 32];
    let record = IdeaRecord {
        idea_hash: hash_of('d'),
        submitter: identity(4),
        timestamp: 77,
        file_type: FileType::Audio,
        title: None,
        description: Some("a tune".to_string()),
        bump: 254,
    };
    assert_eq!(store.get(&key), Err(IdeaProofError::IdeaRecordNotFound));
    assert_eq!(store.create(&key, record.clone()), Ok(()));
    assert_eq!(store.get(&key), Ok(&record));
    let mut other = record.clone();
    other.timestamp = 78;
    assert_eq!(store.create(&key, other.clone()), Err(IdeaProofError::IdeaHashAlreadyExists));
    assert_eq!(store.get(&key), Ok(&record));
    assert_eq!(store.create(&[4u8; 32], other.clone()), Ok(()));
    assert_eq!(store.get(&[4u8; 32]), Ok(&other));
    assert_eq!(store.get(&key), Ok(&record));
}

#[test]
fn store_checks_the_fields_itself() {
    let mut store = RecordStore::new();
    let mut record = IdeaRecord {
        idea_hash: "short".to_string(),
        submitter: identity(4),
        timestamp: 0,
        file_type: FileType::Text,
        title: None,
        description: None,
        bump: 255,
    };
    assert_eq!(store.create(&[1u8; 32], record.clone()), Err(IdeaProofError::InvalidHashLength));
    record.idea_hash = hash_of('e');
    record.title = Some(std::iter::repeat('x').take(101).collect());
    assert_eq!(store.create(&[1u8; 32], record.clone()), Err(IdeaProofError::TitleTooLong));
    record.title = None;
    record.description = Some(std::iter::repeat('x').take(501).collect());
    assert_eq!(store.create(&[1u8; 32], record.clone()), Err(IdeaProofError::DescriptionTooLong));
    assert_eq!(store.get(&[1u8; 32]), Err(IdeaProofError::IdeaRecordNotFound));
}

#[test]
fn request_for_all_ideas_of_a_user_succeeds() {
    let ctx = GetIdeasByUser { user: identity(1) };
    assert_eq!(get_ideas_by_user(&ctx), Ok(()));
}
