//! One ingestion request, stage by stage: read the barcode, look it up,
//! normalise the answer, check for a duplicate, store.
//!
//! The request is a state machine. Whoever drives it asks the state what it
//! is waiting for, does that work (asking the catalog, asking the store,
//! writing to the store), and hands back what came of it. The machine decides
//! what follows; it does no input or output itself.

use crate::barcode::{
    extract_barcode, spec_extract_barcode, text_outcome, ScanInput, ScanInputView,
};
use crate::catalog::{
    interpret_reply, lookup_url, spec_interpret_reply, spec_lookup_url, CatalogReply,
    CatalogReplyView,
};
use crate::error::IngestError;
use crate::product::{
    normalize, normalized, OpenFoodFactProduct, OpenFoodFactProductView, Product, ProductView,
};
use crate::store::{
    dedup_key, duplicate_free, guard_verdict, holds_match, lemma_insert_unique_keeps_duplicate_free,
    lemma_same_barcode_is_stored_once, spec_dedup_key, spec_guard_verdict, spec_insert_unique,
    spec_write_verdict, write_verdict, DedupKey, DedupKeyView, MemoryStore, StoreAnswer,
    WriteOutcome,
};
use vstd::prelude::*;

verus! {

/// How far a request has come.
#[derive(Debug, PartialEq, Eq)]
pub enum IngestState {
    /// The request is in; nothing has been done with it.
    Received(ScanInput),
    /// The barcode is known; the catalog has yet to be asked.
    Decoded(String),
    /// The catalog's answer has been read; it has yet to be normalised.
    LookedUp(OpenFoodFactProduct),
    /// The candidate record is made; the store has yet to be asked for a
    /// duplicate.
    Normalized(Product),
    /// The store holds no duplicate; the candidate has yet to be written.
    DedupChecked(Product),
    /// The candidate is stored. The request has succeeded.
    Persisted(Product),
    /// A stage failed. The request has failed, with that stage's failure.
    Failed(IngestError),
}

/// What an [`IngestState`] holds.
pub enum IngestStateView {
    Received(ScanInputView),
    Decoded(Seq<char>),
    LookedUp(OpenFoodFactProductView),
    Normalized(ProductView),
    DedupChecked(ProductView),
    Persisted(ProductView),
    Failed(IngestError),
}

impl View for IngestState {
    type V = IngestStateView;

    open spec fn view(&self) -> IngestStateView {
        match self {
            IngestState::Received(input) => IngestStateView::Received(input@),
            IngestState::Decoded(code) => IngestStateView::Decoded(code@),
            IngestState::LookedUp(record) => IngestStateView::LookedUp(record@),
            IngestState::Normalized(candidate) => IngestStateView::Normalized(candidate@),
            IngestState::DedupChecked(candidate) => IngestStateView::DedupChecked(candidate@),
            IngestState::Persisted(product) => IngestStateView::Persisted(product@),
            IngestState::Failed(kind) => IngestStateView::Failed(*kind),
        }
    }
}

/// What happened since the machine last said what it was waiting for.
#[derive(Debug, PartialEq, Eq)]
pub enum Event {
    /// Nothing: the machine had asked for no outside work.
    Continue,
    /// The catalog was asked, and this came of it.
    CatalogReplied(CatalogReply),
    /// The store was asked for a duplicate, and said this.
    StoreAnswered(StoreAnswer),
    /// The store was asked to insert the candidate, and this came of it.
    WriteFinished(WriteOutcome),
}

/// What an [`Event`] holds.
pub enum EventView {
    Continue,
    CatalogReplied(CatalogReplyView),
    StoreAnswered(StoreAnswer),
    WriteFinished(WriteOutcome),
}

impl View for Event {
    type V = EventView;

    open spec fn view(&self) -> EventView {
        match self {
            Event::Continue => EventView::Continue,
            Event::CatalogReplied(reply) => EventView::CatalogReplied(reply@),
            Event::StoreAnswered(answer) => EventView::StoreAnswered(*answer),
            Event::WriteFinished(outcome) => EventView::WriteFinished(*outcome),
        }
    }
}

/// What the machine is waiting for.
#[derive(Debug, PartialEq, Eq)]
pub enum Action {
    /// No outside work: hand back `Event::Continue`.
    Continue,
    /// Ask the catalog at this address; hand back `Event::CatalogReplied`.
    Fetch { url: String },
    /// Ask the store whether a record answers to this key; hand back
    /// `Event::StoreAnswered`.
    FindDuplicate { key: DedupKey },
    /// Insert this record into the store; hand back `Event::WriteFinished`.
    Insert { product: Product },
    /// Nothing more: the request has ended.
    Finish,
}

/// What an [`Action`] holds.
pub enum ActionView {
    Continue,
    Fetch { url: Seq<char> },
    FindDuplicate { key: DedupKeyView },
    Insert { product: ProductView },
    Finish,
}

impl View for Action {
    type V = ActionView;

    open spec fn view(&self) -> ActionView {
        match self {
            Action::Continue => ActionView::Continue,
            Action::Fetch { url } => ActionView::Fetch { url: url@ },
            Action::FindDuplicate { key } => ActionView::FindDuplicate { key: key@ },
            Action::Insert { product } => ActionView::Insert { product: product@ },
            Action::Finish => ActionView::Finish,
        }
    }
}

/// The outcome of a request, by what the product holds.
pub open spec fn product_outcome(outcome: Result<Product, IngestError>) -> Result<
    ProductView,
    IngestError,
> {
    match outcome {
        Ok(product) => Ok(product@),
        Err(kind) => Err(kind),
    }
}

/// Whether a request in this state has ended.
pub open spec fn is_terminal(state: IngestStateView) -> bool {
    state is Persisted || state is Failed
}

/// The number of stages that a request in this state still has before it.
pub open spec fn stages_left(state: IngestStateView) -> nat {
    match state {
        IngestStateView::Received(_) => 5,
        IngestStateView::Decoded(_) => 4,
        IngestStateView::LookedUp(_) => 3,
        IngestStateView::Normalized(_) => 2,
        IngestStateView::DedupChecked(_) => 1,
        IngestStateView::Persisted(_) => 0,
        IngestStateView::Failed(_) => 0,
    }
}

/// What a request in this state is waiting for.
pub open spec fn spec_pending(state: IngestStateView) -> ActionView {
    match state {
        IngestStateView::Received(_) => ActionView::Continue,
        IngestStateView::Decoded(code) => ActionView::Fetch { url: spec_lookup_url(code) },
        IngestStateView::LookedUp(_) => ActionView::Continue,
        IngestStateView::Normalized(candidate) => ActionView::FindDuplicate {
            key: spec_dedup_key(candidate),
        },
        IngestStateView::DedupChecked(candidate) => ActionView::Insert { product: candidate },
        IngestStateView::Persisted(_) => ActionView::Finish,
        IngestStateView::Failed(_) => ActionView::Finish,
    }
}

/// Where the extraction of the barcode leaves the request.
pub open spec fn spec_after_extraction(scanned: Result<Seq<char>, IngestError>) -> IngestStateView {
    match scanned {
        Ok(code) => IngestStateView::Decoded(code),
        Err(kind) => IngestStateView::Failed(kind),
    }
}

/// The state that follows `state` on `event`.
///
/// Each stage goes on to the next on the event that it waits for, or to
/// `Failed` with the failure of that stage. An event that the state does not
/// wait for leaves it as it is; so does every event once the request has
/// ended.
pub open spec fn spec_advance(state: IngestStateView, event: EventView) -> IngestStateView {
    match (state, event) {
        (IngestStateView::Received(input), EventView::Continue) => spec_after_extraction(
            spec_extract_barcode(input),
        ),
        (IngestStateView::Decoded(_), EventView::CatalogReplied(reply)) => match spec_interpret_reply(
            reply,
        ) {
            Ok(record) => IngestStateView::LookedUp(record),
            Err(kind) => IngestStateView::Failed(kind),
        },
        (IngestStateView::LookedUp(record), EventView::Continue) => IngestStateView::Normalized(
            normalized(record),
        ),
        (IngestStateView::Normalized(candidate), EventView::StoreAnswered(answer)) => match spec_guard_verdict(
            answer,
        ) {
            Ok(_) => IngestStateView::DedupChecked(candidate),
            Err(kind) => IngestStateView::Failed(kind),
        },
        (IngestStateView::DedupChecked(candidate), EventView::WriteFinished(outcome)) => match spec_write_verdict(
            outcome,
        ) {
            Ok(_) => IngestStateView::Persisted(candidate),
            Err(kind) => IngestStateView::Failed(kind),
        },
        _ => state,
    }
}

impl IngestState {
    /// The state that the extraction of the barcode leaves the request in.
    pub fn after_extraction(scanned: Result<String, IngestError>) -> (state: IngestState)
        ensures
            state@ == spec_after_extraction(text_outcome(scanned)),
    {
        match scanned {
            Ok(code) => IngestState::Decoded(code),
            Err(kind) => IngestState::Failed(kind),
        }
    }

    /// What the request is waiting for.
    pub fn pending(&self) -> (action: Action)
        ensures
            action@ == spec_pending(self@),
    {
        match self {
            IngestState::Received(_) => Action::Continue,
            IngestState::Decoded(code) => Action::Fetch { url: lookup_url(code.as_str()) },
            IngestState::LookedUp(_) => Action::Continue,
            IngestState::Normalized(candidate) => Action::FindDuplicate {
                key: dedup_key(candidate),
            },
            IngestState::DedupChecked(candidate) => Action::Insert { product: candidate.clone() },
            IngestState::Persisted(_) => Action::Finish,
            IngestState::Failed(_) => Action::Finish,
        }
    }

    /// Takes the request one stage on.
    pub fn advance(self, event: Event) -> (next: IngestState)
        ensures
            next@ == spec_advance(self@, event@),
    {
        match (self, event) {
            (IngestState::Received(input), Event::Continue) => IngestState::after_extraction(
                extract_barcode(&input),
            ),
            (IngestState::Decoded(_), Event::CatalogReplied(reply)) => match interpret_reply(
                &reply,
            ) {
                Ok(record) => IngestState::LookedUp(record),
                Err(kind) => IngestState::Failed(kind),
            },
            (IngestState::LookedUp(record), Event::Continue) => IngestState::Normalized(
                normalize(record),
            ),
            (IngestState::Normalized(candidate), Event::StoreAnswered(answer)) => match guard_verdict(
                answer,
            ) {
                Ok(_) => IngestState::DedupChecked(candidate),
                Err(kind) => IngestState::Failed(kind),
            },
            (IngestState::DedupChecked(candidate), Event::WriteFinished(outcome)) => match write_verdict(
                outcome,
            ) {
                Ok(_) => IngestState::Persisted(candidate),
                Err(kind) => IngestState::Failed(kind),
            },
            (state, _) => state,
        }
    }

    /// How the request ended, once it has.
    pub fn outcome(self) -> (outcome: Option<Result<Product, IngestError>>)
        ensures
            match outcome {
                Some(Ok(product)) => self@ == IngestStateView::Persisted(product@),
                Some(Err(kind)) => self@ == IngestStateView::Failed(kind),
                None => !is_terminal(self@),
            },
    {
        match self {
            IngestState::Persisted(product) => Some(Ok(product)),
            IngestState::Failed(kind) => Some(Err(kind)),
            _ => None,
        }
    }
}

/// A request that has ended stays as it ended: no event moves it, and a
/// failure is kept as it was first raised.
pub proof fn lemma_ended_request_stays(state: IngestStateView, event: EventView)
    requires
        is_terminal(state),
    ensures
        spec_advance(state, event) == state,
{
}

/// Every step either leaves the request where it was or takes it on: to the
/// next stage, or to its failure. The stages follow one another, none is
/// gone through twice, and a request ends after five steps at most.
pub proof fn lemma_step_never_goes_back(state: IngestStateView, event: EventView)
    ensures
        stages_left(spec_advance(state, event)) <= stages_left(state),
        spec_advance(state, event) != state ==> (spec_advance(state, event) is Failed
            || stages_left(spec_advance(state, event)) + 1 == stages_left(state)),
        spec_advance(state, event) != state ==> !is_terminal(state),
{
}

/// A request that has not ended moves when it is handed the event that it
/// waits for.
pub proof fn lemma_awaited_event_moves_the_request(state: IngestStateView, event: EventView)
    requires
        !is_terminal(state),
        match spec_pending(state) {
            ActionView::Continue => event is Continue,
            ActionView::Fetch { .. } => event is CatalogReplied,
            ActionView::FindDuplicate { .. } => event is StoreAnswered,
            ActionView::Insert { .. } => event is WriteFinished,
            ActionView::Finish => false,
        },
    ensures
        stages_left(spec_advance(state, event)) < stages_left(state),
{
}

/// A failure comes from the stage that the request was in, and is one of the
/// failures of that stage.
pub proof fn lemma_failure_belongs_to_its_stage(
    state: IngestStateView,
    event: EventView,
    kind: IngestError,
)
    requires
        !(state is Failed),
        spec_advance(state, event) == IngestStateView::Failed(kind),
    ensures
        match state {
            IngestStateView::Received(_) => kind == IngestError::InvalidEncoding || kind
                == IngestError::UnsupportedImage || kind == IngestError::BarcodeNotFound,
            IngestStateView::Decoded(_) => kind == IngestError::CatalogUnreachable || kind
                == IngestError::CatalogMiss || kind == IngestError::CatalogSchemaMismatch,
            IngestStateView::Normalized(_) => kind == IngestError::DuplicateProduct || kind
                == IngestError::StorageFailure,
            IngestStateView::DedupChecked(_) => kind == IngestError::DuplicateProduct || kind
                == IngestError::StorageFailure,
            _ => false,
        },
{
}

/// A request that has failed asks for nothing more: neither a request to the
/// catalog nor a write follows a failure.
pub proof fn lemma_failed_request_asks_for_nothing(kind: IngestError)
    ensures
        spec_pending(IngestStateView::Failed(kind)) == ActionView::Finish,
{
}

/// The catalog is asked only once a barcode has been extracted, and at the
/// address of that barcode.
pub proof fn lemma_fetch_follows_extraction(state: IngestStateView, event: EventView)
    requires
        spec_pending(spec_advance(state, event)) is Fetch,
        spec_advance(state, event) != state,
    ensures
        state is Received,
        event is Continue,
        spec_extract_barcode(state->Received_0) is Ok,
        spec_pending(spec_advance(state, event)) == (ActionView::Fetch {
            url: spec_lookup_url(spec_extract_barcode(state->Received_0)->Ok_0),
        }),
{
}

/// The write is asked for only once the store has said that it holds no
/// duplicate, and then for the very candidate that was checked. After a
/// check that found a duplicate, or that could not be made, nothing is
/// written.
pub proof fn lemma_write_follows_passed_check(state: IngestStateView, event: EventView)
    requires
        spec_pending(spec_advance(state, event)) is Insert,
        spec_advance(state, event) != state,
    ensures
        state is Normalized,
        event == EventView::StoreAnswered(StoreAnswer::Absent),
        spec_advance(state, event) == IngestStateView::DedupChecked(state->Normalized_0),
        spec_pending(spec_advance(state, event)) == (ActionView::Insert {
            product: state->Normalized_0,
        }),
{
}

/// A request succeeds only by a finished write, with the record that was
/// written.
pub proof fn lemma_success_follows_write(state: IngestStateView, event: EventView)
    requires
        spec_advance(state, event) is Persisted,
        !(state is Persisted),
    ensures
        state is DedupChecked,
        event == EventView::WriteFinished(WriteOutcome::Stored),
        spec_advance(state, event) == IngestStateView::Persisted(state->DedupChecked_0),
{
}

/// What offering a candidate to a store in memory comes to: the store with
/// the candidate at its end and the candidate, or the store as it was and
/// `DuplicateProduct` where it holds a record with the candidate's key.
pub open spec fn spec_offer(records: Seq<ProductView>, candidate: ProductView) -> (
    Seq<ProductView>,
    Result<ProductView, IngestError>,
) {
    match spec_insert_unique(records, candidate).1 {
        Ok(_) => (spec_insert_unique(records, candidate).0, Ok(candidate)),
        Err(kind) => (records, Err(kind)),
    }
}

/// How a request whose barcode has been extracted ends when it is driven
/// against a store in memory that holds `records`, with a catalog that
/// replies `reply`: what the store holds afterwards, and the outcome.
///
/// The failure of the extraction, or of the lookup, ends the request with
/// the store as it was. A catalog record is normalised and offered to the
/// store.
pub open spec fn spec_ingest_scanned(
    records: Seq<ProductView>,
    scanned: Result<Seq<char>, IngestError>,
    reply: CatalogReplyView,
) -> (Seq<ProductView>, Result<ProductView, IngestError>) {
    match scanned {
        Err(kind) => (records, Err(kind)),
        Ok(_) => match spec_interpret_reply(reply) {
            Err(kind) => (records, Err(kind)),
            Ok(record) => spec_offer(records, normalized(record)),
        },
    }
}

/// How the request for `input` ends when it is driven against a store in
/// memory that holds `records`, with a catalog that replies `reply`.
pub open spec fn spec_ingest(
    records: Seq<ProductView>,
    input: ScanInputView,
    reply: CatalogReplyView,
) -> (Seq<ProductView>, Result<ProductView, IngestError>) {
    spec_ingest_scanned(records, spec_extract_barcode(input), reply)
}

/// How a request in `state` ends when it is driven from there against a
/// store in memory.
pub open spec fn spec_drive(
    state: IngestStateView,
    records: Seq<ProductView>,
    reply: CatalogReplyView,
) -> (Seq<ProductView>, Result<ProductView, IngestError>) {
    match state {
        IngestStateView::Received(input) => spec_ingest(records, input, reply),
        IngestStateView::Decoded(code) => spec_ingest_scanned(
            records,
            Ok::<Seq<char>, IngestError>(code),
            reply,
        ),
        IngestStateView::LookedUp(record) => spec_offer(records, normalized(record)),
        IngestStateView::Normalized(candidate) => spec_offer(records, candidate),
        IngestStateView::DedupChecked(candidate) => (records.push(candidate), Ok(candidate)),
        IngestStateView::Persisted(product) => (records, Ok(product)),
        IngestStateView::Failed(kind) => (records, Err(kind)),
    }
}

/// Drives a request from `start` to its end: does what the request waits
/// for, against a store in memory and with the catalog's reply at hand, and
/// hands back what came of it, until the request has ended.
pub fn drive(start: IngestState, store: &mut MemoryStore, reply: &CatalogReply) -> (outcome: Result<
    Product,
    IngestError,
>)
    ensures
        (final(store)@, product_outcome(outcome)) == spec_drive(start@, old(store)@, reply@),
{
    let ghost goal = spec_drive(start@, old(store)@, reply@);
    let mut state = start;
    loop
        invariant
            goal == spec_drive(start@, old(store)@, reply@),
            spec_drive(state@, store@, reply@) == goal,
        decreases stages_left(state@),
    {
        match state {
            IngestState::Persisted(product) => {
                return Ok(product);
            },
            IngestState::Failed(kind) => {
                return Err(kind);
            },
            waiting => {
                let event = match waiting.pending() {
                    Action::Continue => Event::Continue,
                    Action::Fetch { url: _ } => Event::CatalogReplied(reply.clone()),
                    Action::FindDuplicate { key } => Event::StoreAnswered(store.lookup(&key)),
                    Action::Insert { product } => {
                        store.insert(product);
                        Event::WriteFinished(WriteOutcome::Stored)
                    },
                    Action::Finish => Event::Continue,
                };
                state = waiting.advance(event);
            },
        }
    }
}

/// Drives a request whose barcode has been extracted to its end, against a
/// store in memory and with the catalog's reply at hand.
pub fn ingest_scanned(
    store: &mut MemoryStore,
    scanned: Result<String, IngestError>,
    reply: &CatalogReply,
) -> (outcome: Result<Product, IngestError>)
    ensures
        (final(store)@, product_outcome(outcome)) == spec_ingest_scanned(
            old(store)@,
            text_outcome(scanned),
            reply@,
        ),
{
    drive(IngestState::after_extraction(scanned), store, reply)
}

/// Ingests what the client sent: drives the request from its receipt to its
/// end, against a store in memory and with the catalog's reply at hand.
pub fn ingest(store: &mut MemoryStore, input: &ScanInput, reply: &CatalogReply) -> (outcome: Result<
    Product,
    IngestError,
>)
    ensures
        (final(store)@, product_outcome(outcome)) == spec_ingest(old(store)@, input@, reply@),
{
    drive(IngestState::Received(input.clone()), store, reply)
}

/// However a request ends, the store is left as it was or with one record
/// more. It has one more exactly when the request succeeds: the product
/// handed back, at the end of the store, where no record had its key. A
/// store free of duplicates stays so.
pub proof fn lemma_ingest_writes_once_on_success(
    records: Seq<ProductView>,
    input: ScanInputView,
    reply: CatalogReplyView,
)
    ensures
        match spec_ingest(records, input, reply).1 {
            Ok(product) => spec_ingest(records, input, reply).0 == records.push(product)
                && !holds_match(records, spec_dedup_key(product)),
            Err(_) => spec_ingest(records, input, reply).0 == records,
        },
        duplicate_free(records) ==> duplicate_free(spec_ingest(records, input, reply).0),
{
    if duplicate_free(records) {
        match spec_ingest(records, input, reply).1 {
            Ok(product) => {
                lemma_insert_unique_keeps_duplicate_free(records, product);
            },
            Err(_) => {},
        }
    }
}

/// A request that succeeded fails as a duplicate when it is made again, and
/// leaves the store as the first one left it.
pub proof fn lemma_second_ingestion_is_duplicate(
    records: Seq<ProductView>,
    input: ScanInputView,
    reply: CatalogReplyView,
)
    requires
        spec_ingest(records, input, reply).1 is Ok,
    ensures
        spec_ingest(spec_ingest(records, input, reply).0, input, reply) == (
            spec_ingest(records, input, reply).0,
            Err::<ProductView, IngestError>(IngestError::DuplicateProduct),
        ),
{
    let product = spec_ingest(records, input, reply).1->Ok_0;
    let after = spec_ingest(records, input, reply).0;
    assert(after == records.push(product));
    assert(crate::store::key_matches(after[records.len() as int], spec_dedup_key(product)));
    assert(holds_match(after, spec_dedup_key(product)));
}

/// Two requests that resolve to the same barcode, made one after the other
/// on a store that holds no record with that barcode: the first is stored
/// and the second fails as a duplicate, whichever of the two comes first,
/// and the store ends with exactly one record more.
pub proof fn lemma_one_barcode_is_ingested_once(
    records: Seq<ProductView>,
    one: ScanInputView,
    one_reply: CatalogReplyView,
    other: ScanInputView,
    other_reply: CatalogReplyView,
    code: Seq<char>,
)
    requires
        spec_extract_barcode(one) is Ok,
        spec_extract_barcode(other) is Ok,
        spec_interpret_reply(one_reply) matches Ok(record) && record.id == code,
        spec_interpret_reply(other_reply) matches Ok(record) && record.id == code,
        !holds_match(records, DedupKeyView::Barcode(code)),
    ensures
        ({
            let (after_first, first) = spec_ingest(records, one, one_reply);
            let (after_both, second) = spec_ingest(after_first, other, other_reply);
            &&& first == Ok::<ProductView, IngestError>(
                normalized(spec_interpret_reply(one_reply)->Ok_0),
            )
            &&& second == Err::<ProductView, IngestError>(IngestError::DuplicateProduct)
            &&& after_both == records.push(first->Ok_0)
        }),
        ({
            let (after_first, first) = spec_ingest(records, other, other_reply);
            let (after_both, second) = spec_ingest(after_first, one, one_reply);
            &&& first == Ok::<ProductView, IngestError>(
                normalized(spec_interpret_reply(other_reply)->Ok_0),
            )
            &&& second == Err::<ProductView, IngestError>(IngestError::DuplicateProduct)
            &&& after_both == records.push(first->Ok_0)
        }),
{
    let one_product = normalized(spec_interpret_reply(one_reply)->Ok_0);
    let other_product = normalized(spec_interpret_reply(other_reply)->Ok_0);
    lemma_same_barcode_is_stored_once(records, one_product, other_product, code);
}

} // verus!
