//! Keeping a product from being stored twice: the key by which two records
//! count as the same product, the check made before every write, and a store
//! held in memory to make it against.

use crate::error::IngestError;
use crate::product::{Product, ProductQuery, ProductView};
use vstd::prelude::*;

verus! {

/// The key by which a record is told from the others.
#[derive(Debug, PartialEq, Eq)]
pub enum DedupKey {
    /// The barcode, for a record that has one.
    Barcode(String),
    /// The name, for a record without a barcode.
    Name(String),
}

/// What a [`DedupKey`] holds.
pub enum DedupKeyView {
    Barcode(Seq<char>),
    Name(Seq<char>),
}

impl View for DedupKey {
    type V = DedupKeyView;

    open spec fn view(&self) -> DedupKeyView {
        match self {
            DedupKey::Barcode(code) => DedupKeyView::Barcode(code@),
            DedupKey::Name(name) => DedupKeyView::Name(name@),
        }
    }
}

impl Clone for DedupKey {
    fn clone(&self) -> (copy: DedupKey)
        ensures
            copy@ == self@,
    {
        match self {
            DedupKey::Barcode(code) => DedupKey::Barcode(code.clone()),
            DedupKey::Name(name) => DedupKey::Name(name.clone()),
        }
    }
}

/// What the store said when asked whether a record with a given key exists.
#[derive(Clone, Copy, Debug, PartialEq, Eq, Structural)]
pub enum StoreAnswer {
    /// No record has the key.
    Absent,
    /// A record has the key.
    Present,
    /// The store could not be reached, or answered with a fault.
    Fault,
}

/// What came of asking the store to insert a record.
#[derive(Clone, Copy, Debug, PartialEq, Eq, Structural)]
pub enum WriteOutcome {
    /// The record is stored.
    Stored,
    /// The store refused the record, because it holds one with the same
    /// barcode.
    Conflict,
    /// The store could not be reached, or answered with a fault.
    Fault,
}

/// The key of a record: its barcode if it has one, otherwise its name.
pub open spec fn spec_dedup_key(product: ProductView) -> DedupKeyView {
    match product.barcode {
        Some(code) => DedupKeyView::Barcode(code),
        None => DedupKeyView::Name(product.name),
    }
}

/// The key by which to look for a record equivalent to this one.
pub fn dedup_key(product: &Product) -> (key: DedupKey)
    ensures
        key@ == spec_dedup_key(product@),
{
    match &product.barcode {
        Some(code) => DedupKey::Barcode(code.clone()),
        None => DedupKey::Name(product.name.clone()),
    }
}

/// Whether a stored record answers to a key: by its barcode for a barcode
/// key, and by its name for a name key.
pub open spec fn key_matches(stored: ProductView, key: DedupKeyView) -> bool {
    match key {
        DedupKeyView::Barcode(code) => stored.barcode == Some(code),
        DedupKeyView::Name(name) => stored.name == name,
    }
}

/// Whether a stored record answers to a key.
pub fn matches_key(stored: &Product, key: &DedupKey) -> (matched: bool)
    ensures
        matched == key_matches(stored@, key@),
{
    match key {
        DedupKey::Barcode(code) => match &stored.barcode {
            Some(stored_code) => *stored_code == *code,
            None => false,
        },
        DedupKey::Name(name) => stored.name == *name,
    }
}

/// Whether some record among `records` answers to the key.
pub open spec fn holds_match(records: Seq<ProductView>, key: DedupKeyView) -> bool {
    exists|i: int| 0 <= i < records.len() && key_matches(#[trigger] records[i], key)
}

/// Whether every record was new when it was stored: none answers to the key
/// of a record stored after it.
pub open spec fn duplicate_free(records: Seq<ProductView>) -> bool {
    forall|i: int, j: int|
        0 <= i < j < records.len() ==> !key_matches(
            #[trigger] records[i],
            spec_dedup_key(#[trigger] records[j]),
        )
}

/// Whether no two records have the same barcode.
pub open spec fn barcodes_unique(records: Seq<ProductView>) -> bool {
    forall|i: int, j: int|
        0 <= i < records.len() && 0 <= j < records.len() && i != j
            && (#[trigger] records[i]).barcode is Some ==> records[i].barcode
            != (#[trigger] records[j]).barcode
}

/// What the duplicate check makes of the store's answer: a record that is
/// there is a duplicate, and a check that could not be made counts as
/// failed, so that nothing is written on the strength of it.
pub open spec fn spec_guard_verdict(answer: StoreAnswer) -> Result<(), IngestError> {
    match answer {
        StoreAnswer::Absent => Ok(()),
        StoreAnswer::Present => Err(IngestError::DuplicateProduct),
        StoreAnswer::Fault => Err(IngestError::StorageFailure),
    }
}

/// Decides from the store's answer whether the write may go ahead.
pub fn guard_verdict(answer: StoreAnswer) -> (verdict: Result<(), IngestError>)
    ensures
        verdict == spec_guard_verdict(answer),
{
    match answer {
        StoreAnswer::Absent => Ok(()),
        StoreAnswer::Present => Err(IngestError::DuplicateProduct),
        StoreAnswer::Fault => Err(IngestError::StorageFailure),
    }
}

/// What the outcome of the write makes of the request. A record that the
/// store refused as a duplicate, because another request stored it since the
/// check, is a duplicate like any other.
pub open spec fn spec_write_verdict(outcome: WriteOutcome) -> Result<(), IngestError> {
    match outcome {
        WriteOutcome::Stored => Ok(()),
        WriteOutcome::Conflict => Err(IngestError::DuplicateProduct),
        WriteOutcome::Fault => Err(IngestError::StorageFailure),
    }
}

/// Decides from the outcome of the write how the request ends.
pub fn write_verdict(outcome: WriteOutcome) -> (verdict: Result<(), IngestError>)
    ensures
        verdict == spec_write_verdict(outcome),
{
    match outcome {
        WriteOutcome::Stored => Ok(()),
        WriteOutcome::Conflict => Err(IngestError::DuplicateProduct),
        WriteOutcome::Fault => Err(IngestError::StorageFailure),
    }
}

/// A collection of product records held in memory, in the order in which
/// they were stored. It does not itself refuse a duplicate: that is the
/// work of the check made before a write.
#[derive(Debug)]
pub struct MemoryStore {
    pub products: Vec<Product>,
}

impl View for MemoryStore {
    type V = Seq<ProductView>;

    open spec fn view(&self) -> Seq<ProductView> {
        self.products@.map_values(|product: Product| product@)
    }
}

/// What a guarded insert of the candidate leaves in the store, and how it
/// ends: the store as it was and `DuplicateProduct` where a record answers
/// to the candidate's key, else the store with the candidate at its end.
pub open spec fn spec_insert_unique(records: Seq<ProductView>, candidate: ProductView) -> (
    Seq<ProductView>,
    Result<(), IngestError>,
) {
    if holds_match(records, spec_dedup_key(candidate)) {
        (records, Err(IngestError::DuplicateProduct))
    } else {
        (records.push(candidate), Ok(()))
    }
}

impl MemoryStore {
    /// A store with no record in it.
    pub fn new() -> (store: MemoryStore)
        ensures
            store@ == Seq::<ProductView>::empty(),
    {
        let store = MemoryStore { products: Vec::new() };
        assert(store@ =~= Seq::<ProductView>::empty());
        store
    }

    /// The number of records stored.
    pub fn len(&self) -> (count: usize)
        ensures
            count == self@.len(),
    {
        self.products.len()
    }

    /// The record stored in place `index`, counting from the first stored.
    pub fn get(&self, index: usize) -> (found: Option<&Product>)
        ensures
            match found {
                Some(product) => index < self@.len() && product@ == self@[index as int],
                None => index >= self@.len(),
            },
    {
        if index < self.products.len() {
            Some(&self.products[index])
        } else {
            None
        }
    }

    /// Says whether a record answers to the key.
    pub fn lookup(&self, key: &DedupKey) -> (answer: StoreAnswer)
        ensures
            answer == if holds_match(self@, key@) {
                StoreAnswer::Present
            } else {
                StoreAnswer::Absent
            },
    {
        let mut i: usize = 0;
        while i < self.products.len()
            invariant
                i <= self.products.len(),
                forall|k: int| 0 <= k < i ==> !key_matches(#[trigger] self@[k], key@),
            decreases self.products.len() - i,
        {
            if matches_key(&self.products[i], key) {
                assert(key_matches(self@[i as int], key@));
                return StoreAnswer::Present;
            }
            i += 1;
        }
        StoreAnswer::Absent
    }

    /// The place of the first record with the name asked for.
    pub fn find_by_name(&self, query: &ProductQuery) -> (place: Option<usize>)
        ensures
            match place {
                Some(index) => index < self@.len() && self@[index as int].name == query.name@
                    && forall|k: int| 0 <= k < index ==> (#[trigger] self@[k]).name != query.name@,
                None => forall|k: int| 0 <= k < self@.len() ==> (#[trigger] self@[k]).name
                    != query.name@,
            },
    {
        let mut i: usize = 0;
        while i < self.products.len()
            invariant
                i <= self.products.len(),
                forall|k: int| 0 <= k < i ==> (#[trigger] self@[k]).name != query.name@,
            decreases self.products.len() - i,
        {
            if self.products[i].name == query.name {
                return Some(i);
            }
            i += 1;
        }
        None
    }

    /// Stores the record after those already there, whatever they are.
    pub fn insert(&mut self, product: Product)
        ensures
            final(self)@ == old(self)@.push(product@),
    {
        self.products.push(product);
        assert(self@ =~= old(self)@.push(product@));
    }

    /// Stores the candidate unless a record already answers to its key. A
    /// duplicate is refused as `DuplicateProduct`, and leaves the store as it
    /// was.
    pub fn insert_unique(&mut self, candidate: Product) -> (outcome: Result<(), IngestError>)
        ensures
            (final(self)@, outcome) == spec_insert_unique(old(self)@, candidate@),
            duplicate_free(old(self)@) ==> duplicate_free(final(self)@),
    {
        let key = dedup_key(&candidate);
        match guard_verdict(self.lookup(&key)) {
            Ok(()) => {
                proof {
                    if duplicate_free(self@) {
                        lemma_insert_unique_keeps_duplicate_free(self@, candidate@);
                    }
                }
                self.insert(candidate);
                Ok(())
            },
            Err(kind) => Err(kind),
        }
    }
}

/// A guarded insert keeps a store free of duplicates.
pub proof fn lemma_insert_unique_keeps_duplicate_free(
    records: Seq<ProductView>,
    candidate: ProductView,
)
    requires
        duplicate_free(records),
    ensures
        duplicate_free(spec_insert_unique(records, candidate).0),
{
    let after = spec_insert_unique(records, candidate).0;
    if !holds_match(records, spec_dedup_key(candidate)) {
        assert forall|i: int, j: int| 0 <= i < j < after.len() implies !key_matches(
            #[trigger] after[i],
            spec_dedup_key(#[trigger] after[j]),
        ) by {
            if j < records.len() {
                assert(after[i] == records[i]);
                assert(after[j] == records[j]);
            } else {
                assert(after[j] == candidate);
                assert(after[i] == records[i]);
            }
        }
    }
}

/// In a store free of duplicates no two records have the same barcode.
pub proof fn lemma_duplicate_free_has_unique_barcodes(records: Seq<ProductView>)
    requires
        duplicate_free(records),
    ensures
        barcodes_unique(records),
{
    assert forall|i: int, j: int|
        0 <= i < records.len() && 0 <= j < records.len() && i != j
            && (#[trigger] records[i]).barcode is Some implies records[i].barcode
        != (#[trigger] records[j]).barcode by {
        if records[i].barcode == records[j].barcode {
            if i < j {
                assert(key_matches(records[i], spec_dedup_key(records[j])));
            } else {
                assert(key_matches(records[j], spec_dedup_key(records[i])));
            }
        }
    }
}

/// Of two candidates with the same barcode, offered one after the other to a
/// store that holds no record with that barcode, the first is stored and the
/// second is refused as a duplicate, whichever of the two comes first; the
/// store then holds exactly one record with that barcode, in the place after
/// the records it held before.
pub proof fn lemma_same_barcode_is_stored_once(
    records: Seq<ProductView>,
    first: ProductView,
    second: ProductView,
    code: Seq<char>,
)
    requires
        first.barcode == Some(code),
        second.barcode == Some(code),
        !holds_match(records, DedupKeyView::Barcode(code)),
    ensures
        ({
            let (after_first, first_outcome) = spec_insert_unique(records, first);
            let (after_both, second_outcome) = spec_insert_unique(after_first, second);
            &&& first_outcome == Ok::<(), IngestError>(())
            &&& second_outcome == Err::<(), IngestError>(IngestError::DuplicateProduct)
            &&& after_both == records.push(first)
            &&& forall|i: int|
                0 <= i < after_both.len() ==> ((#[trigger] after_both[i]).barcode == Some(code)
                    <==> i == records.len())
        }),
        ({
            let (after_second, second_outcome) = spec_insert_unique(records, second);
            let (after_both, first_outcome) = spec_insert_unique(after_second, first);
            &&& second_outcome == Ok::<(), IngestError>(())
            &&& first_outcome == Err::<(), IngestError>(IngestError::DuplicateProduct)
            &&& after_both == records.push(second)
            &&& forall|i: int|
                0 <= i < after_both.len() ==> ((#[trigger] after_both[i]).barcode == Some(code)
                    <==> i == records.len())
        }),
{
    lemma_first_of_two_is_stored(records, first, second, code);
    lemma_first_of_two_is_stored(records, second, first, code);
}

/// One order of [`lemma_same_barcode_is_stored_once`].
proof fn lemma_first_of_two_is_stored(
    records: Seq<ProductView>,
    first: ProductView,
    second: ProductView,
    code: Seq<char>,
)
    requires
        first.barcode == Some(code),
        second.barcode == Some(code),
        !holds_match(records, DedupKeyView::Barcode(code)),
    ensures
        ({
            let (after_first, first_outcome) = spec_insert_unique(records, first);
            let (after_both, second_outcome) = spec_insert_unique(after_first, second);
            &&& first_outcome == Ok::<(), IngestError>(())
            &&& second_outcome == Err::<(), IngestError>(IngestError::DuplicateProduct)
            &&& after_both == records.push(first)
            &&& forall|i: int|
                0 <= i < after_both.len() ==> ((#[trigger] after_both[i]).barcode == Some(code)
                    <==> i == records.len())
        }),
{
    let key = DedupKeyView::Barcode(code);
    assert(spec_dedup_key(first) == key);
    assert(spec_dedup_key(second) == key);
    let after_first = records.push(first);
    assert(key_matches(after_first[records.len() as int], key));
    assert(holds_match(after_first, key));
    assert forall|i: int| 0 <= i < after_first.len() implies ((#[trigger] after_first[i]).barcode
        == Some(code) <==> i == records.len()) by {
        if i < records.len() {
            assert(after_first[i] == records[i]);
            assert(!key_matches(records[i], key));
        }
    }
}

} // verus!
