//! Reading a barcode out of what the client sent: undoing the base64
//! encoding, decoding the image, and scanning it for a symbol, one
//! symbology after the other.

use crate::copy::clone_bytes;
use crate::error::IngestError;
use vstd::prelude::*;

verus! {

/// `base64::DecodeError`: why a text is no base64. It is told from success,
/// and not read.
#[verifier::external_type_specification]
#[verifier::external_body]
pub struct ExDecodeError(base64::DecodeError);

/// `image::ImageError`: why bytes could not be decoded to an image. It is
/// told from success, and not read.
#[verifier::external_type_specification]
#[verifier::external_body]
pub struct ExImageError(image::ImageError);

/// `rxing::Exceptions`: why the scanner read no symbol. It is told from
/// success, and not read.
#[verifier::external_type_specification]
#[verifier::external_body]
pub struct ExExceptions(rxing::Exceptions);

/// The bytes that a text stands for in base64 (standard alphabet, padded),
/// where it is well-formed base64.
pub uninterp spec fn base64_decoded(text: Seq<char>) -> Option<Seq<u8>>;

/// The picture that the bytes of an image file decode to, reduced to grey
/// values, where they are an image in a format that can be read.
pub uninterp spec fn decoded_picture(bytes: Seq<u8>) -> Option<LumaImageView>;

/// The text of the symbol that the scanner reads in a picture when it looks
/// for one symbology, where it reads one.
pub uninterp spec fn scanned_symbol(picture: LumaImageView, symbology: Symbology) -> Option<Seq<char>>;

/// What the client sent to be resolved.
#[derive(Debug, PartialEq, Eq)]
pub enum ScanInput {
    /// An image of a barcode, as base64 text.
    Base64Image(String),
    /// An image of a barcode, as the bytes of the image file.
    RawImage(Vec<u8>),
    /// The barcode itself.
    Barcode(String),
}

/// What a [`ScanInput`] holds.
pub enum ScanInputView {
    Base64Image(Seq<char>),
    RawImage(Seq<u8>),
    Barcode(Seq<char>),
}

impl View for ScanInput {
    type V = ScanInputView;

    open spec fn view(&self) -> ScanInputView {
        match self {
            ScanInput::Base64Image(text) => ScanInputView::Base64Image(text@),
            ScanInput::RawImage(bytes) => ScanInputView::RawImage(bytes@),
            ScanInput::Barcode(code) => ScanInputView::Barcode(code@),
        }
    }
}

impl Clone for ScanInput {
    fn clone(&self) -> (copy: ScanInput)
        ensures
            copy@ == self@,
    {
        match self {
            ScanInput::Base64Image(text) => ScanInput::Base64Image(text.clone()),
            ScanInput::RawImage(bytes) => ScanInput::RawImage(clone_bytes(bytes)),
            ScanInput::Barcode(code) => ScanInput::Barcode(code.clone()),
        }
    }
}

/// A decoded image, reduced to grey values: `pixels` holds the rows one
/// after the other, from the top, each `width` values long.
#[derive(Debug, PartialEq, Eq)]
pub struct LumaImage {
    pub width: u32,
    pub height: u32,
    pub pixels: Vec<u8>,
}

/// What a [`LumaImage`] holds.
pub struct LumaImageView {
    pub width: u32,
    pub height: u32,
    pub pixels: Seq<u8>,
}

impl View for LumaImage {
    type V = LumaImageView;

    open spec fn view(&self) -> LumaImageView {
        LumaImageView { width: self.width, height: self.height, pixels: self.pixels@ }
    }
}

/// A kind of barcode that goods are marked with.
#[derive(Clone, Copy, Debug, PartialEq, Eq, Structural)]
pub enum Symbology {
    Ean13,
    Ean8,
    UpcE,
    Code128,
    QrCode,
    DataMatrix,
    Aztec,
}

/// The symbologies that a picture is scanned for, in the order in which they
/// are tried: the retail codes first, then the others in one dimension, then
/// those in two.
pub open spec fn symbologies() -> Seq<Symbology> {
    seq![
        Symbology::Ean13,
        Symbology::Ean8,
        Symbology::UpcE,
        Symbology::Code128,
        Symbology::QrCode,
        Symbology::DataMatrix,
        Symbology::Aztec,
    ]
}

/// The symbologies that a picture is scanned for, in their order.
pub fn symbology_order() -> (order: Vec<Symbology>)
    ensures
        order@ == symbologies(),
{
    let order = vec![
        Symbology::Ean13,
        Symbology::Ean8,
        Symbology::UpcE,
        Symbology::Code128,
        Symbology::QrCode,
        Symbology::DataMatrix,
        Symbology::Aztec,
    ];
    assert(order@ =~= symbologies());
    order
}

/// What scanning an image for a barcode came to.
#[derive(Debug, PartialEq, Eq)]
pub enum BarcodeScanResult {
    /// A symbol was recognised; this is its text.
    Found(String),
    /// No symbol was recognised.
    NotFound,
}

impl BarcodeScanResult {
    /// The barcode that a scan yields: the text of the symbol, where there
    /// is one.
    pub open spec fn spec_barcode(self) -> Result<Seq<char>, IngestError> {
        match self {
            BarcodeScanResult::Found(text) => Ok(text@),
            BarcodeScanResult::NotFound => Err(IngestError::BarcodeNotFound),
        }
    }

    /// The barcode, or the failure that an image without one stands for.
    pub fn into_barcode(self) -> (barcode: Result<String, IngestError>)
        ensures
            text_outcome(barcode) == self.spec_barcode(),
    {
        match self {
            BarcodeScanResult::Found(text) => Ok(text),
            BarcodeScanResult::NotFound => Err(IngestError::BarcodeNotFound),
        }
    }
}

/// The outcome of a step that yields a text, by what the text holds.
pub open spec fn text_outcome(outcome: Result<String, IngestError>) -> Result<
    Seq<char>,
    IngestError,
> {
    match outcome {
        Ok(text) => Ok(text@),
        Err(kind) => Err(kind),
    }
}

/// `Engine::decode` of the `base64` crate, on its `STANDARD` engine: the
/// bytes that the text encodes, or its error where the text is not
/// well-formed. What it answers depends on the text alone.
#[verifier::external_body]
fn standard_base64_decode(text: &str) -> (decoded: Result<Vec<u8>, base64::DecodeError>)
    ensures
        match decoded {
            Ok(bytes) => base64_decoded(text@) == Some(bytes@),
            Err(_) => base64_decoded(text@) is None,
        },
{
    base64::Engine::decode(&base64::engine::general_purpose::STANDARD, text)
}

/// `image::load_from_memory`, with the image it yields reduced to grey values
/// by `DynamicImage::into_luma8`: the picture that the bytes decode to, or
/// the error of `load_from_memory` where they are no image that it can read.
/// What it answers depends on the bytes alone.
#[verifier::external_body]
fn load_luma_image(bytes: &[u8]) -> (loaded: Result<LumaImage, image::ImageError>)
    ensures
        match loaded {
            Ok(picture) => decoded_picture(bytes@) == Some(picture@),
            Err(_) => decoded_picture(bytes@) is None,
        },
{
    let gray = image::load_from_memory(bytes)?.into_luma8();
    Ok(LumaImage { width: gray.width(), height: gray.height(), pixels: gray.into_raw() })
}

/// `rxing::helpers::detect_in_luma_slice`, asked for one format: the text of
/// the symbol of that format that it detects, or its error where it detects
/// none or takes the picture as ill-formed. What it answers depends on the
/// picture and the format alone.
#[verifier::external_body]
fn detect_in_luma(picture: &LumaImage, symbology: Symbology) -> (detected: Result<
    String,
    rxing::Exceptions,
>)
    ensures
        match detected {
            Ok(text) => scanned_symbol(picture@, symbology) == Some(text@),
            Err(_) => scanned_symbol(picture@, symbology) is None,
        },
{
    let format = match symbology {
        Symbology::Ean13 => rxing::BarcodeFormat::EAN_13,
        Symbology::Ean8 => rxing::BarcodeFormat::EAN_8,
        Symbology::UpcE => rxing::BarcodeFormat::UPC_E,
        Symbology::Code128 => rxing::BarcodeFormat::CODE_128,
        Symbology::QrCode => rxing::BarcodeFormat::QR_CODE,
        Symbology::DataMatrix => rxing::BarcodeFormat::DATA_MATRIX,
        Symbology::Aztec => rxing::BarcodeFormat::AZTEC,
    };
    let (width, height) = (picture.width, picture.height);
    let found = rxing::helpers::detect_in_luma_slice(&picture.pixels, width, height, Some(format))?;
    Ok(found.getText().to_owned())
}

/// The bytes behind a base64 payload, where it is well-formed.
pub open spec fn spec_decode_payload(text: Seq<char>) -> Result<Seq<u8>, IngestError> {
    match base64_decoded(text) {
        Some(bytes) => Ok(bytes),
        None => Err(IngestError::InvalidEncoding),
    }
}

/// Undoes the base64 encoding of a payload. A payload that is not well-formed
/// base64 is refused as `InvalidEncoding`, and every other payload is
/// decoded.
pub fn decode_payload(text: &str) -> (decoded: Result<Vec<u8>, IngestError>)
    ensures
        match decoded {
            Ok(bytes) => spec_decode_payload(text@) == Ok::<Seq<u8>, IngestError>(bytes@),
            Err(kind) => spec_decode_payload(text@) == Err::<Seq<u8>, IngestError>(kind),
        },
{
    match standard_base64_decode(text) {
        Ok(bytes) => Ok(bytes),
        Err(_) => Err(IngestError::InvalidEncoding),
    }
}

/// The outcome of a step that yields a picture, by what the picture holds.
pub open spec fn picture_outcome(outcome: Result<LumaImage, IngestError>) -> Result<
    LumaImageView,
    IngestError,
> {
    match outcome {
        Ok(picture) => Ok(picture@),
        Err(kind) => Err(kind),
    }
}

/// The picture behind the bytes of an image file, where they are an image.
pub open spec fn spec_read_picture(bytes: Seq<u8>) -> Result<LumaImageView, IngestError> {
    match decoded_picture(bytes) {
        Some(picture) => Ok(picture),
        None => Err(IngestError::UnsupportedImage),
    }
}

/// Decodes the bytes of an image file to grey values. Bytes that are no
/// image, or an image in a format that cannot be read, are refused as
/// `UnsupportedImage`; nothing else is refused.
pub fn read_picture(bytes: &[u8]) -> (picture: Result<LumaImage, IngestError>)
    ensures
        picture_outcome(picture) == spec_read_picture(bytes@),
{
    match load_luma_image(bytes) {
        Ok(picture) => Ok(picture),
        Err(_) => Err(IngestError::UnsupportedImage),
    }
}

/// The text that is read in a picture under the first symbology, from place
/// `from` of the order on, under which the scanner reads one.
pub open spec fn first_symbol_from(picture: LumaImageView, from: nat) -> Option<Seq<char>>
    decreases symbologies().len() - from,
{
    if from >= symbologies().len() {
        None
    } else {
        match scanned_symbol(picture, symbologies()[from as int]) {
            Some(text) => Some(text),
            None => first_symbol_from(picture, from + 1),
        }
    }
}

/// What a scan of the picture comes to: the text read under the first
/// symbology of the order under which one is read, and `BarcodeNotFound`
/// where none is read under any.
pub open spec fn spec_scan_picture(picture: LumaImageView) -> Result<Seq<char>, IngestError> {
    match first_symbol_from(picture, 0) {
        Some(text) => Ok(text),
        None => Err(IngestError::BarcodeNotFound),
    }
}

/// Scans a picture for a barcode symbol, one symbology after the other, and
/// stops at the first symbol read. Where the scanner reads none, or gives up
/// on the picture, the result is `NotFound`: that is an answer, not a fault.
pub fn scan_picture(picture: &LumaImage) -> (scan: BarcodeScanResult)
    ensures
        scan.spec_barcode() == spec_scan_picture(picture@),
{
    let order = symbology_order();
    let mut place: usize = 0;
    while place < order.len()
        invariant
            order@ == symbologies(),
            place <= order.len(),
            first_symbol_from(picture@, 0) == first_symbol_from(picture@, place as nat),
        decreases order.len() - place,
    {
        match detect_in_luma(picture, order[place]) {
            Ok(text) => {
                return BarcodeScanResult::Found(text);
            },
            Err(_) => {},
        }
        place += 1;
    }
    BarcodeScanResult::NotFound
}

/// The barcode in a picture that may have failed to decode: the failure of
/// the decoding where it failed, else what the scan comes to.
pub open spec fn spec_barcode_in(picture: Result<LumaImageView, IngestError>) -> Result<
    Seq<char>,
    IngestError,
> {
    match picture {
        Ok(picture) => spec_scan_picture(picture),
        Err(kind) => Err(kind),
    }
}

/// Carries a decoded picture on to the scan, and a failed decoding to the
/// end: the scanner is not run on a picture that could not be decoded.
pub fn barcode_in(picture: Result<LumaImage, IngestError>) -> (barcode: Result<String, IngestError>)
    ensures
        text_outcome(barcode) == spec_barcode_in(picture_outcome(picture)),
{
    match picture {
        Ok(picture) => scan_picture(&picture).into_barcode(),
        Err(kind) => Err(kind),
    }
}

/// The barcode in the bytes of an image file.
pub open spec fn spec_scan_image(bytes: Seq<u8>) -> Result<Seq<char>, IngestError> {
    spec_barcode_in(spec_read_picture(bytes))
}

/// Reads the barcode out of the bytes of an image file.
pub fn scan_image(bytes: &[u8]) -> (barcode: Result<String, IngestError>)
    ensures
        text_outcome(barcode) == spec_scan_image(bytes@),
{
    barcode_in(read_picture(bytes))
}

/// The barcode in what the client sent.
///
/// A literal barcode is taken as it is. The bytes of an image are decoded
/// and scanned. A base64 payload is first turned into the bytes it stands
/// for; one that is not well-formed base64 ends there, as `InvalidEncoding`,
/// and nothing of it reaches the image decoder.
pub open spec fn spec_extract_barcode(input: ScanInputView) -> Result<Seq<char>, IngestError> {
    match input {
        ScanInputView::Barcode(code) => Ok(code),
        ScanInputView::RawImage(bytes) => spec_scan_image(bytes),
        ScanInputView::Base64Image(text) => match spec_decode_payload(text) {
            Ok(bytes) => spec_scan_image(bytes),
            Err(kind) => Err(kind),
        },
    }
}

/// Extracts the barcode from what the client sent.
pub fn extract_barcode(input: &ScanInput) -> (barcode: Result<String, IngestError>)
    ensures
        text_outcome(barcode) == spec_extract_barcode(input@),
{
    match input {
        ScanInput::Barcode(code) => Ok(code.clone()),
        ScanInput::RawImage(bytes) => scan_image(bytes.as_slice()),
        ScanInput::Base64Image(text) => match decode_payload(text.as_str()) {
            Ok(bytes) => scan_image(bytes.as_slice()),
            Err(kind) => Err(kind),
        },
    }
}

/// Whether nothing is read in the picture under the symbologies before
/// place `place` of the order.
pub open spec fn nothing_read_before(picture: LumaImageView, place: nat) -> bool {
    forall|earlier: int|
        0 <= earlier < place ==> scanned_symbol(picture, #[trigger] symbologies()[earlier])
            is None
}

/// The scan reads the symbol of the first symbology, in the order, under
/// which the scanner reads one.
pub proof fn lemma_scan_reads_first_symbol(picture: LumaImageView, place: nat, symbol: Seq<char>)
    requires
        place < symbologies().len(),
        scanned_symbol(picture, symbologies()[place as int]) == Some(symbol),
        nothing_read_before(picture, place),
    ensures
        spec_scan_picture(picture) == Ok::<Seq<char>, IngestError>(symbol),
{
    lemma_first_symbol_from(picture, 0, place, symbol);
}

proof fn lemma_first_symbol_from(picture: LumaImageView, from: nat, place: nat, symbol: Seq<char>)
    requires
        from <= place < symbologies().len(),
        scanned_symbol(picture, symbologies()[place as int]) == Some(symbol),
        nothing_read_before(picture, place),
    ensures
        first_symbol_from(picture, from) == Some(symbol),
    decreases place - from,
{
    if from < place {
        assert(scanned_symbol(picture, symbologies()[from as int]) is None);
        lemma_first_symbol_from(picture, from + 1, place, symbol);
    }
}

/// The scan finds no barcode exactly when the scanner reads none under any
/// symbology of the order.
pub proof fn lemma_not_found_is_nothing_read(picture: LumaImageView)
    ensures
        spec_scan_picture(picture) == Err::<Seq<char>, IngestError>(IngestError::BarcodeNotFound)
            <==> nothing_read_before(picture, symbologies().len()),
{
    lemma_nothing_from(picture, 0);
}

proof fn lemma_nothing_from(picture: LumaImageView, from: nat)
    requires
        from <= symbologies().len(),
    ensures
        first_symbol_from(picture, from) is None <==> forall|later: int|
            from <= later < symbologies().len() ==> scanned_symbol(
                picture,
                #[trigger] symbologies()[later],
            ) is None,
    decreases symbologies().len() - from,
{
    if from < symbologies().len() {
        lemma_nothing_from(picture, from + 1);
        if first_symbol_from(picture, from) is None {
            assert(scanned_symbol(picture, symbologies()[from as int]) is None);
        }
    }
}

/// An image that holds a symbol which the scanner reads gives that symbol's
/// text, and no other, whether the image comes as bytes or as base64.
pub proof fn lemma_recognised_symbol_is_returned(
    bytes: Seq<u8>,
    picture: LumaImageView,
    place: nat,
    symbol: Seq<char>,
    encoded: Seq<char>,
)
    requires
        decoded_picture(bytes) == Some(picture),
        place < symbologies().len(),
        scanned_symbol(picture, symbologies()[place as int]) == Some(symbol),
        nothing_read_before(picture, place),
        base64_decoded(encoded) == Some(bytes),
    ensures
        spec_extract_barcode(ScanInputView::RawImage(bytes)) == Ok::<Seq<char>, IngestError>(
            symbol,
        ),
        spec_extract_barcode(ScanInputView::Base64Image(encoded)) == Ok::<Seq<char>, IngestError>(
            symbol,
        ),
{
    lemma_scan_reads_first_symbol(picture, place, symbol);
}

/// A payload that is not well-formed base64 fails as `InvalidEncoding`,
/// whatever an image decoder would make of anything: the outcome does not
/// depend on it.
pub proof fn lemma_malformed_base64_is_invalid_encoding(text: Seq<char>)
    requires
        base64_decoded(text) is None,
    ensures
        spec_decode_payload(text) == Err::<Seq<u8>, IngestError>(IngestError::InvalidEncoding),
        spec_extract_barcode(ScanInputView::Base64Image(text)) == Err::<Seq<char>, IngestError>(
            IngestError::InvalidEncoding,
        ),
{
}

/// The extraction fails in three ways only, each from its own step: the
/// base64 decoding, the image decoding, the scan.
pub proof fn lemma_extraction_failures(input: ScanInputView, kind: IngestError)
    requires
        spec_extract_barcode(input) == Err::<Seq<char>, IngestError>(kind),
    ensures
        kind == IngestError::InvalidEncoding || kind == IngestError::UnsupportedImage || kind
            == IngestError::BarcodeNotFound,
        kind == IngestError::InvalidEncoding ==> input is Base64Image,
        !(input is Barcode),
{
}

} // verus!
