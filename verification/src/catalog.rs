//! Looking a barcode up in the public food-product catalog: where to ask,
//! and what to make of the answer.
//!
//! The request itself is made by the caller. This module says which address
//! to ask, and reads the catalog's answer into a catalog record.

use crate::copy::clone_bytes;
use crate::error::IngestError;
use crate::product::{
    normalized, OpenFoodFactProduct, OpenFoodFactProductDetail, OpenFoodFactProductDetailView,
    OpenFoodFactProductView, ProductView,
};
use vstd::prelude::*;
use vstd::string::StringExecFns;

verus! {

/// `serde_json::Value`: a JSON document. What it holds is known through
/// [`json_texts`] alone.
#[verifier::external_type_specification]
#[verifier::external_body]
pub struct ExJsonValue(serde_json::Value);

/// `serde_json::Error`: why bytes are no JSON document. It is told from
/// success, and not read.
#[verifier::external_type_specification]
#[verifier::external_body]
pub struct ExJsonError(serde_json::Error);

/// The address under which the catalog files its products, one path segment
/// short of a product.
pub const API_BARCODE: &'static str = "https://world.openfoodfacts.org/api/v0/product/";

/// Where the identifier of a record stands in the catalog's answer.
pub const ID_POINTER: &'static str = "/id";

/// Where the identifier stands under the catalog's other name for it.
pub const ID_ALIAS_POINTER: &'static str = "/code";

/// Where the name of a product stands in the catalog's answer.
pub const NAME_POINTER: &'static str = "/product/name";

/// Where the name stands under the catalog's other name for it.
pub const NAME_ALIAS_POINTER: &'static str = "/product/product_name_fr";

/// Where the address of a product's image stands in the catalog's answer.
pub const IMAGE_POINTER: &'static str = "/product/image";

/// Where the image stands under the catalog's other name for it.
pub const IMAGE_ALIAS_POINTER: &'static str = "/product/image_url";

/// The texts that a JSON document holds: each JSON pointer that leads to a
/// string in the document, with that string.
pub uninterp spec fn json_texts(document: serde_json::Value) -> Map<Seq<char>, Seq<char>>;

/// The texts of the JSON document that the bytes spell out, where they spell
/// one out.
pub uninterp spec fn parsed_json_texts(body: Seq<u8>) -> Option<Map<Seq<char>, Seq<char>>>;

/// What came of asking the catalog.
#[derive(Debug, PartialEq, Eq)]
pub enum CatalogReply {
    /// No answer came: the request failed on the way.
    Unreachable,
    /// The catalog answered, with this status code and body.
    Answered { status: u16, body: Vec<u8> },
}

/// What a [`CatalogReply`] holds.
pub enum CatalogReplyView {
    Unreachable,
    Answered { status: u16, body: Seq<u8> },
}

impl View for CatalogReply {
    type V = CatalogReplyView;

    open spec fn view(&self) -> CatalogReplyView {
        match self {
            CatalogReply::Unreachable => CatalogReplyView::Unreachable,
            CatalogReply::Answered { status, body } => CatalogReplyView::Answered {
                status: *status,
                body: body@,
            },
        }
    }
}

impl Clone for CatalogReply {
    fn clone(&self) -> (copy: CatalogReply)
        ensures
            copy@ == self@,
    {
        match self {
            CatalogReply::Unreachable => CatalogReply::Unreachable,
            CatalogReply::Answered { status, body } => CatalogReply::Answered {
                status: *status,
                body: clone_bytes(body),
            },
        }
    }
}

/// The outcome of a step that yields a catalog record, by what the record
/// holds.
pub open spec fn record_outcome(outcome: Result<OpenFoodFactProduct, IngestError>) -> Result<
    OpenFoodFactProductView,
    IngestError,
> {
    match outcome {
        Ok(record) => Ok(record@),
        Err(kind) => Err(kind),
    }
}

/// `serde_json::from_slice`, asked for a `Value`: the document that the bytes
/// spell out, or its error where they are not one JSON document. What it
/// answers depends on the bytes alone.
#[verifier::external_body]
fn parse_json(body: &[u8]) -> (parsed: Result<serde_json::Value, serde_json::Error>)
    ensures
        match parsed {
            Ok(document) => parsed_json_texts(body@) == Some(json_texts(document)),
            Err(_) => parsed_json_texts(body@) is None,
        },
{
    serde_json::from_slice::<serde_json::Value>(body)
}

/// `Value::pointer` of `serde_json`: the string that the JSON pointer leads
/// to in the document, and `None` where it leads nowhere or to something
/// that is no string.
#[verifier::external_body]
fn json_text_at(document: &serde_json::Value, pointer: &str) -> (text: Option<String>)
    ensures
        match text {
            Some(found) => json_texts(*document).contains_key(pointer@) && json_texts(
                *document,
            )[pointer@] == found@,
            None => !json_texts(*document).contains_key(pointer@),
        },
{
    match document.pointer(pointer) {
        Some(serde_json::Value::String(found)) => Some(found.clone()),
        _ => None,
    }
}

/// The address to ask for the product with this barcode: the catalog's base
/// address with the barcode as its last path segment.
pub open spec fn spec_lookup_url(barcode: Seq<char>) -> Seq<char> {
    API_BARCODE@ + barcode
}

/// The address to ask for the product with this barcode.
pub fn lookup_url(barcode: &str) -> (url: String)
    ensures
        url@ == spec_lookup_url(barcode@),
{
    let mut url = API_BARCODE.to_owned();
    url.append(barcode);
    url
}

/// Whether a status code says that the request succeeded.
pub open spec fn is_success(status: u16) -> bool {
    200 <= status < 300
}

/// The value of a field that the catalog has under two names: what stands
/// under the one name that is there. A field under neither name is missing,
/// and one under both is given twice; neither has a value.
pub open spec fn spec_resolve_alias(
    primary: Option<Seq<char>>,
    alias: Option<Seq<char>>,
) -> Option<Seq<char>> {
    match (primary, alias) {
        (Some(text), None) => Some(text),
        (None, Some(text)) => Some(text),
        _ => None,
    }
}

/// The value of a field that may stand under either of two names.
pub fn resolve_alias(primary: Option<String>, alias: Option<String>) -> (value: Option<String>)
    ensures
        value.deep_view() == spec_resolve_alias(primary.deep_view(), alias.deep_view()),
{
    match (primary, alias) {
        (Some(text), None) => Some(text),
        (None, Some(text)) => Some(text),
        _ => None,
    }
}

/// The catalog record made of three fields, where all three have a value.
pub open spec fn spec_assemble_record(
    id: Option<Seq<char>>,
    name: Option<Seq<char>>,
    image: Option<Seq<char>>,
) -> Result<OpenFoodFactProductView, IngestError> {
    match (id, name, image) {
        (Some(id), Some(name), Some(image)) => Ok(
            OpenFoodFactProductView {
                id,
                product: OpenFoodFactProductDetailView { name, image },
            },
        ),
        _ => Err(IngestError::CatalogSchemaMismatch),
    }
}

/// Puts a catalog record together from its three fields. A field without a
/// value makes the answer a `CatalogSchemaMismatch`.
pub fn assemble_record(id: Option<String>, name: Option<String>, image: Option<String>) -> (record:
    Result<OpenFoodFactProduct, IngestError>)
    ensures
        record_outcome(record) == spec_assemble_record(
            id.deep_view(),
            name.deep_view(),
            image.deep_view(),
        ),
{
    match (id, name, image) {
        (Some(id), Some(name), Some(image)) => Ok(
            OpenFoodFactProduct { id, product: OpenFoodFactProductDetail { name, image } },
        ),
        _ => Err(IngestError::CatalogSchemaMismatch),
    }
}

/// The text that a document holds at a pointer, if any.
pub open spec fn text_at(texts: Map<Seq<char>, Seq<char>>, pointer: Seq<char>) -> Option<
    Seq<char>,
> {
    if texts.contains_key(pointer) {
        Some(texts[pointer])
    } else {
        None
    }
}

/// The catalog record that a document with these texts stands for. Each of
/// the three fields is looked for under its two names, independently of the
/// other fields.
pub open spec fn spec_record_from_texts(texts: Map<Seq<char>, Seq<char>>) -> Result<
    OpenFoodFactProductView,
    IngestError,
> {
    spec_assemble_record(
        spec_resolve_alias(text_at(texts, ID_POINTER@), text_at(texts, ID_ALIAS_POINTER@)),
        spec_resolve_alias(text_at(texts, NAME_POINTER@), text_at(texts, NAME_ALIAS_POINTER@)),
        spec_resolve_alias(text_at(texts, IMAGE_POINTER@), text_at(texts, IMAGE_ALIAS_POINTER@)),
    )
}

/// Reads one field of the catalog's answer, under either of its names.
fn aliased_text(document: &serde_json::Value, pointer: &str, alias_pointer: &str) -> (value: Option<
    String,
>)
    ensures
        value.deep_view() == spec_resolve_alias(
            text_at(json_texts(*document), pointer@),
            text_at(json_texts(*document), alias_pointer@),
        ),
{
    resolve_alias(json_text_at(document, pointer), json_text_at(document, alias_pointer))
}

/// Reads a catalog record out of a JSON document.
pub fn record_from_document(document: &serde_json::Value) -> (record: Result<
    OpenFoodFactProduct,
    IngestError,
>)
    ensures
        record_outcome(record) == spec_record_from_texts(json_texts(*document)),
{
    let id = aliased_text(document, ID_POINTER, ID_ALIAS_POINTER);
    let name = aliased_text(document, NAME_POINTER, NAME_ALIAS_POINTER);
    let image = aliased_text(document, IMAGE_POINTER, IMAGE_ALIAS_POINTER);
    assemble_record(id, name, image)
}

/// The catalog record that the bytes of an answer stand for. Bytes that are
/// no JSON document stand for none, as does a document that lacks a field.
pub open spec fn spec_parse_record(body: Seq<u8>) -> Result<OpenFoodFactProductView, IngestError> {
    match parsed_json_texts(body) {
        Some(texts) => spec_record_from_texts(texts),
        None => Err(IngestError::CatalogSchemaMismatch),
    }
}

/// Reads a catalog record out of the body of the catalog's answer.
pub fn parse_record(body: &[u8]) -> (record: Result<OpenFoodFactProduct, IngestError>)
    ensures
        record_outcome(record) == spec_parse_record(body@),
{
    match parse_json(body) {
        Ok(document) => record_from_document(&document),
        Err(_) => Err(IngestError::CatalogSchemaMismatch),
    }
}

/// What the catalog's reply comes to: no answer is `CatalogUnreachable`, an
/// answer without a success status is `CatalogMiss` whatever its body, and
/// the body of a successful answer is read as a catalog record.
pub open spec fn spec_interpret_reply(reply: CatalogReplyView) -> Result<
    OpenFoodFactProductView,
    IngestError,
> {
    match reply {
        CatalogReplyView::Unreachable => Err(IngestError::CatalogUnreachable),
        CatalogReplyView::Answered { status, body } => if is_success(status) {
            spec_parse_record(body)
        } else {
            Err(IngestError::CatalogMiss)
        },
    }
}

/// Reads the catalog's reply.
pub fn interpret_reply(reply: &CatalogReply) -> (record: Result<OpenFoodFactProduct, IngestError>)
    ensures
        record_outcome(record) == spec_interpret_reply(reply@),
{
    match reply {
        CatalogReply::Unreachable => Err(IngestError::CatalogUnreachable),
        CatalogReply::Answered { status, body } => {
            if 200 <= *status && *status < 300 {
                parse_record(body.as_slice())
            } else {
                Err(IngestError::CatalogMiss)
            }
        },
    }
}

/// Whether a document holds exactly one of a field's two names, and holds
/// `value` under it.
pub open spec fn holds_under(
    texts: Map<Seq<char>, Seq<char>>,
    pointer: Seq<char>,
    other_pointer: Seq<char>,
    value: Seq<char>,
) -> bool {
    texts.contains_key(pointer) && texts[pointer] == value && !texts.contains_key(other_pointer)
}

/// Both ways of naming the fields are read, and to the same record: an
/// answer that gives identifier, name and image under `id`, `name` and
/// `image`, and one that gives the same three values under `code`,
/// `product_name_fr` and `image_url`, stand for one catalog record, which
/// holds those values, and so for one canonical record.
pub proof fn lemma_both_namings_give_one_record(
    plain: Map<Seq<char>, Seq<char>>,
    aliased: Map<Seq<char>, Seq<char>>,
    id: Seq<char>,
    name: Seq<char>,
    image: Seq<char>,
)
    requires
        holds_under(plain, ID_POINTER@, ID_ALIAS_POINTER@, id),
        holds_under(plain, NAME_POINTER@, NAME_ALIAS_POINTER@, name),
        holds_under(plain, IMAGE_POINTER@, IMAGE_ALIAS_POINTER@, image),
        holds_under(aliased, ID_ALIAS_POINTER@, ID_POINTER@, id),
        holds_under(aliased, NAME_ALIAS_POINTER@, NAME_POINTER@, name),
        holds_under(aliased, IMAGE_ALIAS_POINTER@, IMAGE_POINTER@, image),
    ensures
        spec_record_from_texts(plain) == spec_record_from_texts(aliased),
        spec_record_from_texts(plain) == Ok::<OpenFoodFactProductView, IngestError>(
            OpenFoodFactProductView {
                id,
                product: OpenFoodFactProductDetailView { name, image },
            },
        ),
        normalized(spec_record_from_texts(plain)->Ok_0) == normalized(
            spec_record_from_texts(aliased)->Ok_0,
        ),
        normalized(spec_record_from_texts(aliased)->Ok_0) == (ProductView {
            name,
            image: Some(image),
            quantity: None,
            category: None,
            barcode: Some(id),
        }),
{
}

/// The naming of one field does not bear on another: each of the three
/// fields may come under either of its names, and the record is the same.
pub proof fn lemma_fields_are_named_independently(
    texts: Map<Seq<char>, Seq<char>>,
    id: Seq<char>,
    name: Seq<char>,
    image: Seq<char>,
)
    requires
        holds_under(texts, ID_POINTER@, ID_ALIAS_POINTER@, id) || holds_under(
            texts,
            ID_ALIAS_POINTER@,
            ID_POINTER@,
            id,
        ),
        holds_under(texts, NAME_POINTER@, NAME_ALIAS_POINTER@, name) || holds_under(
            texts,
            NAME_ALIAS_POINTER@,
            NAME_POINTER@,
            name,
        ),
        holds_under(texts, IMAGE_POINTER@, IMAGE_ALIAS_POINTER@, image) || holds_under(
            texts,
            IMAGE_ALIAS_POINTER@,
            IMAGE_POINTER@,
            image,
        ),
    ensures
        spec_record_from_texts(texts) == Ok::<OpenFoodFactProductView, IngestError>(
            OpenFoodFactProductView {
                id,
                product: OpenFoodFactProductDetailView { name, image },
            },
        ),
{
}

} // verus!
