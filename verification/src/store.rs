use crate::error::IdeaProofError;
use crate::state::{IdeaRecord, IdeaRecordView};
use crate::validator::{admissible, validate, validation};
use vstd::prelude::*;

verus! {

/// What a store holds: the record at each occupied address.
pub type Records = Map<Seq<u8>, IdeaRecordView>;

/// Whether the two keys hold the same bytes.
fn same_key(a: &[u8; 32], b: &[u8; 32]) -> (same: bool)
    ensures
        same == (a@ == b@),
{
    let mut i: usize = 0;
    while i < 32
        invariant
            i <= 32,
            forall|j: int| 0 <= j < i ==> a@[j] == b@[j],
        decreases 32 - i,
    {
        if a[i] != b[i] {
            return false;
        }
        i += 1;
    }
    assert(a@ =~= b@);
    true
}

/// One occupied address and the record that lives there.
struct Slot {
    key: [u8; 32],
    record: IdeaRecord,
}

/// The records that were made, each at its address. A record is made once and
/// then stays as it is: the store has no way to change or remove one.
pub struct RecordStore {
    slots: Vec<Slot>,
}

/// What `create` answers on a store that holds `records`.
pub open spec fn creation(
    records: Records,
    key: Seq<u8>,
    idea_hash: Seq<char>,
    title: Option<Seq<char>>,
    description: Option<Seq<char>>,
) -> Result<(), IdeaProofError> {
    match validation(idea_hash, title, description) {
        Err(e) => Err(e),
        Ok(_) => if records.contains_key(key) {
            Err(IdeaProofError::IdeaHashAlreadyExists)
        } else {
            Ok(())
        },
    }
}

/// What a store holds after `create`: the new record beside the old ones where
/// the answer is `Ok`, and what it held before where it is not.
pub open spec fn records_after_creation(records: Records, key: Seq<u8>, record: IdeaRecordView) -> Records {
    if creation(records, key, record.idea_hash, record.title, record.description) is Ok {
        records.insert(key, record)
    } else {
        records
    }
}

/// What `get` answers on a store that holds `records`.
pub open spec fn lookup(records: Records, key: Seq<u8>) -> Result<IdeaRecordView, IdeaProofError> {
    if records.contains_key(key) {
        Ok(records[key])
    } else {
        Err(IdeaProofError::IdeaRecordNotFound)
    }
}

/// The view of what a lookup gave.
pub open spec fn found_view(found: Result<&IdeaRecord, IdeaProofError>) -> Result<
    IdeaRecordView,
    IdeaProofError,
> {
    match found {
        Ok(record) => Ok(record@),
        Err(e) => Err(e),
    }
}

/// Whether every record keeps the rules for its fields.
pub open spec fn all_admissible(records: Records) -> bool {
    forall|key: Seq<u8>| #[trigger]
        records.contains_key(key) ==> admissible(
            records[key].idea_hash,
            records[key].title,
            records[key].description,
        )
}

impl View for RecordStore {
    type V = Records;

    closed spec fn view(&self) -> Records {
        Map::new(
            |key: Seq<u8>| self.position(key) is Some,
            |key: Seq<u8>| self.slots[self.position(key).unwrap()].record@,
        )
    }
}

impl RecordStore {
    /// No address is taken twice, and every record keeps the rules for its
    /// fields.
    pub closed spec fn well_formed(&self) -> bool {
        &&& forall|i: int, j: int|
            #![trigger self.slots[i], self.slots[j]]
            0 <= i < j < self.slots.len() ==> self.slots[i].key@ != self.slots[j].key@
        &&& forall|i: int|
            #![trigger self.slots[i]]
            0 <= i < self.slots.len() ==> admissible(
                self.slots[i].record@.idea_hash,
                self.slots[i].record@.title,
                self.slots[i].record@.description,
            )
    }

    /// Where the slot with `key` stands, if there is one.
    spec fn position(self, key: Seq<u8>) -> Option<int> {
        if exists|i: int| 0 <= i < self.slots.len() && #[trigger] self.slots[i].key@ == key {
            Some(choose|i: int| 0 <= i < self.slots.len() && #[trigger] self.slots[i].key@ == key)
        } else {
            None
        }
    }

    /// The records of a well-formed store keep the rules for their fields.
    pub proof fn lemma_records_admissible(&self)
        requires
            self.well_formed(),
        ensures
            all_admissible(self@),
    {
        assert forall|key: Seq<u8>| #[trigger] self@.contains_key(key) implies admissible(
            self@[key].idea_hash,
            self@[key].title,
            self@[key].description,
        ) by {
            let at = self.position(key).unwrap();
            assert(self.slots[at].key@ == key);
        }
    }

    /// A store without records.
    pub fn new() -> (store: Self)
        ensures
            store.well_formed(),
            store@ == Map::<Seq<u8>, IdeaRecordView>::empty(),
    {
        let store = RecordStore { slots: Vec::new() };
        assert(store@ =~= Map::<Seq<u8>, IdeaRecordView>::empty());
        store
    }

    /// The index of the slot with `key`.
    fn find(&self, key: &[u8; 32]) -> (found: Option<usize>)
        requires
            self.well_formed(),
        ensures
            match found {
                Some(i) => i < self.slots.len() && self.slots[i as int].key@ == key@
                    && self.position(key@) == Some(i as int),
                None => self.position(key@) is None,
            },
    {
        let mut i: usize = 0;
        while i < self.slots.len()
            invariant
                i <= self.slots.len(),
                self.well_formed(),
                forall|j: int| 0 <= j < i ==> (#[trigger] self.slots[j]).key@ != key@,
            decreases self.slots.len() - i,
        {
            if same_key(&self.slots[i].key, key) {
                proof {
                    let at = self.position(key@).unwrap();
                    assert(self.slots[at].key@ == self.slots[i as int].key@);
                }
                return Some(i);
            }
            i += 1;
        }
        None
    }

    /// Makes `record` the record at `key`, unless its fields break a rule or
    /// the address is taken: then the store stays as it was.
    pub fn create(&mut self, key: &[u8; 32], record: IdeaRecord) -> (made: Result<(), IdeaProofError>)
        requires
            old(self).well_formed(),
        ensures
            final(self).well_formed(),
            made == creation(
                old(self)@,
                key@,
                record@.idea_hash,
                record@.title,
                record@.description,
            ),
            final(self)@ == records_after_creation(old(self)@, key@, record@),
    {
        match validate(record.idea_hash.as_str(), &record.title, &record.description) {
            Err(e) => {
                return Err(e);
            },
            Ok(_) => {},
        }
        if self.find(key).is_some() {
            return Err(IdeaProofError::IdeaHashAlreadyExists);
        }
        let ghost before = *self;
        self.slots.push(Slot { key: *key, record });
        proof {
            let after = *self;
            let last = before.slots.len() as int;
            assert(after.slots[last].key@ == key@);
            // A key is taken afterwards exactly if it was taken before or is the new one.
            assert forall|k: Seq<u8>| #[trigger]
                after.position(k) is Some <==> (k == key@ || before.position(k) is Some) by {
                if before.position(k) is Some {
                    let at = before.position(k).unwrap();
                    assert(after.slots[at].key@ == k);
                }
                if after.position(k) is Some {
                    let at = after.position(k).unwrap();
                    if at < last {
                        assert(before.slots[at].key@ == k);
                    }
                }
            }
            // The new key leads to the new record, every other key to the record it led to.
            assert forall|k: Seq<u8>| after.position(k) is Some implies #[trigger] after@[k]
                == before@.insert(key@, record@)[k] by {
                let at = after.position(k).unwrap();
                if k == key@ {
                    assert(after.slots[at].key@ == after.slots[last].key@);
                } else {
                    let was = before.position(k).unwrap();
                    assert(after.slots[was].key@ == after.slots[at].key@);
                }
            }
            assert(after@ =~= before@.insert(key@, record@));
        }
        Ok(())
    }

    /// Reads the record at `key`, or says that there is none.
    pub fn get(&self, key: &[u8; 32]) -> (found: Result<&IdeaRecord, IdeaProofError>)
        requires
            self.well_formed(),
        ensures
            found_view(found) == lookup(self@, key@),
    {
        match self.find(key) {
            Some(i) => Ok(&self.slots[i].record),
            None => Err(IdeaProofError::IdeaRecordNotFound),
        }
    }
}

} // verus!
