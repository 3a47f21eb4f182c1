use std::io::Cursor;

use base64::Engine;
use product_catalog::barcode::ScanInput;
use product_catalog::catalog::CatalogReply;
use product_catalog::error::IngestError;
use product_catalog::ingest::{ingest, ingest_scanned, Action, Event, IngestState};
use product_catalog::product::{OpenFoodFactProduct, OpenFoodFactProductDetail, Product};
use product_catalog::store::{DedupKey, MemoryStore, StoreAnswer, WriteOutcome};
use rxing::Writer;

const NUTELLA_BODY: &str = "{\"code\":\"3017620422003\",\"product\":{\"product_name_fr\":\"Nutella\",\"image_url\":\"http://x/img.jpg\"}}";

fn ean13_png(contents: &str) -> Vec<u8> {
    let matrix = rxing::MultiFormatWriter
        .encode(contents, &rxing::BarcodeFormat::EAN_13, 400, 160)
        .expect("the symbol can be drawn");
    let picture = image::DynamicImage::from(&matrix);
    let mut bytes = Vec::new();
    picture
        .write_to(&mut Cursor::new(&mut bytes), image::ImageFormat::Png)
        .expect("the picture can be written");
    bytes
}

fn blank_png() -> Vec<u8> {
    let picture = image::DynamicImage::ImageLuma8(image::GrayImage::from_pixel(
        200,
        100,
        image::Luma([255u8]),
    ));
    let mut bytes = Vec::new();
    picture
        .write_to(&mut Cursor::new(&mut bytes), image::ImageFormat::Png)
        .expect("the picture can be written");
    bytes
}

fn base64_image(bytes: &[u8]) -> ScanInput {
    ScanInput::Base64Image(base64::engine::general_purpose::STANDARD.encode(bytes))
}

fn found(body: &str) -> CatalogReply {
    CatalogReply::Answered { status: 200, body: body.as_bytes().to_vec() }
}

fn nutella() -> Product {
    Product {
        name: "Nutella".to_string(),
        image: Some("http://x/img.jpg".to_string()),
        quantity: None,
        category: None,
        barcode: Some("3017620422003".to_string()),
    }
}

fn nutella_record() -> OpenFoodFactProduct {
    OpenFoodFactProduct {
        id: "3017620422003".to_string(),
        product: OpenFoodFactProductDetail {
            name: "Nutella".to_string(),
            image: "http://x/img.jpg".to_string(),
        },
    }
}

#[test]
fn scenario_image_is_resolved_and_stored_once() {
    let mut store = MemoryStore::new();
    let input = base64_image(&ean13_png("3017620422003"));
    let outcome = ingest(&mut store, &input, &found(NUTELLA_BODY));
    assert_eq!(outcome, Ok(nutella()));
    assert_eq!(store.len(), 1);
    assert_eq!(store.get(0), Some(&nutella()));
}

#[test]
fn scenario_second_ingestion_is_a_duplicate() {
    let mut store = MemoryStore::new();
    let input = base64_image(&ean13_png("3017620422003"));
    assert_eq!(ingest(&mut store, &input, &found(NUTELLA_BODY)), Ok(nutella()));
    assert_eq!(
        ingest(&mut store, &input, &found(NUTELLA_BODY)),
        Err(IngestError::DuplicateProduct)
    );
    assert_eq!(store.len(), 1);
    assert_eq!(store.get(0), Some(&nutella()));
}

#[test]
fn scenario_no_symbol_ends_before_the_lookup() {
    let mut store = MemoryStore::new();
    let input = base64_image(&blank_png());
    assert_eq!(
        ingest(&mut store, &input, &found(NUTELLA_BODY)),
        Err(IngestError::BarcodeNotFound)
    );
    assert_eq!(store.len(), 0);

    let state = IngestState::Received(base64_image(&blank_png()));
    assert_eq!(state.pending(), Action::Continue);
    let state = state.advance(Event::Continue);
    assert_eq!(state, IngestState::Failed(IngestError::BarcodeNotFound));
    assert_eq!(state.pending(), Action::Finish);
}

#[test]
fn scenario_catalog_miss_writes_nothing() {
    let mut store = MemoryStore::new();
    let input = base64_image(&ean13_png("3017620422003"));
    let reply = CatalogReply::Answered { status: 404, body: b"{\"status\":0}".to_vec() };
    assert_eq!(ingest(&mut store, &input, &reply), Err(IngestError::CatalogMiss));
    assert_eq!(store.len(), 0);

    let state = IngestState::Decoded("3017620422003".to_string());
    let state = state.advance(Event::CatalogReplied(reply));
    assert_eq!(state, IngestState::Failed(IngestError::CatalogMiss));
    assert_eq!(state.pending(), Action::Finish);
}

#[test]
fn two_payloads_with_one_barcode_in_either_order() {
    let as_image = base64_image(&ean13_png("3017620422003"));
    let as_text = ScanInput::Barcode("3017620422003".to_string());

    let mut store = MemoryStore::new();
    assert_eq!(ingest(&mut store, &as_image, &found(NUTELLA_BODY)), Ok(nutella()));
    assert_eq!(
        ingest(&mut store, &as_text, &found(NUTELLA_BODY)),
        Err(IngestError::DuplicateProduct)
    );
    assert_eq!(store.len(), 1);

    let mut store = MemoryStore::new();
    assert_eq!(ingest(&mut store, &as_text, &found(NUTELLA_BODY)), Ok(nutella()));
    assert_eq!(
        ingest(&mut store, &as_image, &found(NUTELLA_BODY)),
        Err(IngestError::DuplicateProduct)
    );
    assert_eq!(store.len(), 1);
    assert_eq!(store.get(0), Some(&nutella()));
}

#[test]
fn each_failure_has_an_input() {
    let reply = found(NUTELLA_BODY);
    let mut store = MemoryStore::new();
    assert_eq!(
        ingest(&mut store, &ScanInput::Base64Image("%%%".to_string()), &reply),
        Err(IngestError::InvalidEncoding)
    );
    assert_eq!(
        ingest(&mut store, &ScanInput::RawImage(b"no image".to_vec()), &reply),
        Err(IngestError::UnsupportedImage)
    );
    assert_eq!(
        ingest(&mut store, &ScanInput::RawImage(blank_png()), &reply),
        Err(IngestError::BarcodeNotFound)
    );
    let code = ScanInput::Barcode("3017620422003".to_string());
    assert_eq!(
        ingest(&mut store, &code, &CatalogReply::Unreachable),
        Err(IngestError::CatalogUnreachable)
    );
    assert_eq!(
        ingest(&mut store, &code, &CatalogReply::Answered { status: 503, body: Vec::new() }),
        Err(IngestError::CatalogMiss)
    );
    assert_eq!(
        ingest(&mut store, &code, &found("{\"status\":0}")),
        Err(IngestError::CatalogSchemaMismatch)
    );
    assert_eq!(store.len(), 0);
    assert_eq!(ingest(&mut store, &code, &reply), Ok(nutella()));
    assert_eq!(ingest(&mut store, &code, &reply), Err(IngestError::DuplicateProduct));
    assert_eq!(store.len(), 1);

    let waiting = IngestState::Normalized(nutella());
    assert_eq!(
        waiting.advance(Event::StoreAnswered(StoreAnswer::Fault)),
        IngestState::Failed(IngestError::StorageFailure)
    );
}

#[test]
fn ingest_scanned_carries_a_failed_extraction_through() {
    let mut store = MemoryStore::new();
    assert_eq!(
        ingest_scanned(&mut store, Err(IngestError::UnsupportedImage), &found(NUTELLA_BODY)),
        Err(IngestError::UnsupportedImage)
    );
    assert_eq!(store.len(), 0);
    assert_eq!(
        ingest_scanned(&mut store, Ok("3017620422003".to_string()), &found(NUTELLA_BODY)),
        Ok(nutella())
    );
    assert_eq!(store.len(), 1);
}

#[test]
fn stored_barcode_is_the_one_the_catalog_gives() {
    let mut store = MemoryStore::new();
    let body = "{\"id\":\"0000000000017\",\"product\":{\"name\":\"Tea\",\"image\":\"http://x/tea.png\"}}";
    let outcome = ingest_scanned(&mut store, Ok("17".to_string()), &found(body));
    assert_eq!(
        outcome,
        Ok(Product {
            name: "Tea".to_string(),
            image: Some("http://x/tea.png".to_string()),
            quantity: None,
            category: None,
            barcode: Some("0000000000017".to_string()),
        })
    );
}

#[test]
fn machine_goes_through_every_stage() {
    let state = IngestState::Received(ScanInput::Barcode("3017620422003".to_string()));
    assert_eq!(state.pending(), Action::Continue);

    let state = state.advance(Event::Continue);
    assert_eq!(state, IngestState::Decoded("3017620422003".to_string()));
    assert_eq!(
        state.pending(),
        Action::Fetch {
            url: "https://world.openfoodfacts.org/api/v0/product/3017620422003".to_string()
        }
    );

    let state = state.advance(Event::CatalogReplied(found(NUTELLA_BODY)));
    assert_eq!(state, IngestState::LookedUp(nutella_record()));
    assert_eq!(state.pending(), Action::Continue);

    let state = state.advance(Event::Continue);
    assert_eq!(state, IngestState::Normalized(nutella()));
    assert_eq!(
        state.pending(),
        Action::FindDuplicate { key: DedupKey::Barcode("3017620422003".to_string()) }
    );

    let state = state.advance(Event::StoreAnswered(StoreAnswer::Absent));
    assert_eq!(state, IngestState::DedupChecked(nutella()));
    assert_eq!(state.pending(), Action::Insert { product: nutella() });

    let state = state.advance(Event::WriteFinished(WriteOutcome::Stored));
    assert_eq!(state, IngestState::Persisted(nutella()));
    assert_eq!(state.pending(), Action::Finish);
    assert_eq!(state.outcome(), Some(Ok(nutella())));
}

#[test]
fn duplicate_found_by_the_store_ends_the_request() {
    let state = IngestState::Normalized(nutella());
    let state = state.advance(Event::StoreAnswered(StoreAnswer::Present));
    assert_eq!(state, IngestState::Failed(IngestError::DuplicateProduct));
    assert_eq!(state.pending(), Action::Finish);
    assert_eq!(state.outcome(), Some(Err(IngestError::DuplicateProduct)));
}

#[test]
fn write_that_fails_ends_the_request() {
    let conflict = IngestState::DedupChecked(nutella())
        .advance(Event::WriteFinished(WriteOutcome::Conflict));
    assert_eq!(conflict, IngestState::Failed(IngestError::DuplicateProduct));
    let fault =
        IngestState::DedupChecked(nutella()).advance(Event::WriteFinished(WriteOutcome::Fault));
    assert_eq!(fault, IngestState::Failed(IngestError::StorageFailure));
}

#[test]
fn event_that_is_not_waited_for_changes_nothing() {
    let state = IngestState::Decoded("3017620422003".to_string());
    let state = state.advance(Event::StoreAnswered(StoreAnswer::Absent));
    assert_eq!(state, IngestState::Decoded("3017620422003".to_string()));
    let state = state.advance(Event::Continue);
    assert_eq!(state, IngestState::Decoded("3017620422003".to_string()));
    let state = state.advance(Event::WriteFinished(WriteOutcome::Stored));
    assert_eq!(state, IngestState::Decoded("3017620422003".to_string()));

    let state = IngestState::Normalized(nutella());
    let state = state.advance(Event::WriteFinished(WriteOutcome::Stored));
    assert_eq!(state, IngestState::Normalized(nutella()));
}

#[test]
fn ended_request_stays_as_it_ended() {
    let failed = IngestState::Failed(IngestError::CatalogMiss);
    let failed = failed.advance(Event::CatalogReplied(found(NUTELLA_BODY)));
    assert_eq!(failed, IngestState::Failed(IngestError::CatalogMiss));
    let failed = failed.advance(Event::Continue);
    assert_eq!(failed, IngestState::Failed(IngestError::CatalogMiss));

    let stored = IngestState::Persisted(nutella());
    let stored = stored.advance(Event::WriteFinished(WriteOutcome::Fault));
    assert_eq!(stored, IngestState::Persisted(nutella()));
}

#[test]
fn request_on_its_way_has_no_outcome() {
    assert_eq!(IngestState::Decoded("1".to_string()).outcome(), None);
    assert_eq!(IngestState::Normalized(nutella()).outcome(), None);
    assert_eq!(IngestState::after_extraction(Ok("1".to_string())), IngestState::Decoded("1".to_string()));
    assert_eq!(
        IngestState::after_extraction(Err(IngestError::BarcodeNotFound)),
        IngestState::Failed(IngestError::BarcodeNotFound)
    );
}

#[test]
fn drive_takes_a_request_up_from_where_it_is() {
    let mut store = MemoryStore::new();
    let outcome = product_catalog::ingest::drive(
        IngestState::Normalized(nutella()),
        &mut store,
        &CatalogReply::Unreachable,
    );
    assert_eq!(outcome, Ok(nutella()));
    assert_eq!(store.len(), 1);

    let outcome = product_catalog::ingest::drive(
        IngestState::LookedUp(nutella_record()),
        &mut store,
        &CatalogReply::Unreachable,
    );
    assert_eq!(outcome, Err(IngestError::DuplicateProduct));
    assert_eq!(store.len(), 1);

    let outcome = product_catalog::ingest::drive(
        IngestState::Decoded("3017620422003".to_string()),
        &mut store,
        &CatalogReply::Unreachable,
    );
    assert_eq!(outcome, Err(IngestError::CatalogUnreachable));
    assert_eq!(store.len(), 1);
}
