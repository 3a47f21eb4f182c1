use std::io::Cursor;

use base64::Engine;
use product_catalog::barcode::{
    barcode_in, decode_payload, extract_barcode, read_picture, scan_image, scan_picture,
    symbology_order, BarcodeScanResult, LumaImage, ScanInput, Symbology,
};
use product_catalog::error::IngestError;
use rxing::Writer;

fn symbol_png(contents: &str, format: rxing::BarcodeFormat, width: i32, height: i32) -> Vec<u8> {
    let matrix = rxing::MultiFormatWriter
        .encode(contents, &format, width, height)
        .expect("the symbol can be drawn");
    let picture = image::DynamicImage::from(&matrix);
    let mut bytes = Vec::new();
    picture
        .write_to(&mut Cursor::new(&mut bytes), image::ImageFormat::Png)
        .expect("the picture can be written");
    bytes
}

fn blank_png(width: u32, height: u32) -> Vec<u8> {
    let picture = image::DynamicImage::ImageLuma8(image::GrayImage::from_pixel(
        width,
        height,
        image::Luma([255u8]),
    ));
    let mut bytes = Vec::new();
    picture
        .write_to(&mut Cursor::new(&mut bytes), image::ImageFormat::Png)
        .expect("the picture can be written");
    bytes
}

fn as_base64(bytes: &[u8]) -> String {
    base64::engine::general_purpose::STANDARD.encode(bytes)
}

#[test]
fn ean13_round_trip_from_image_bytes() {
    let png = symbol_png("3017620422003", rxing::BarcodeFormat::EAN_13, 400, 160);
    assert_eq!(
        extract_barcode(&ScanInput::RawImage(png)),
        Ok("3017620422003".to_string())
    );
}

#[test]
fn ean13_round_trip_from_base64() {
    let png = symbol_png("3017620422003", rxing::BarcodeFormat::EAN_13, 400, 160);
    assert_eq!(
        extract_barcode(&ScanInput::Base64Image(as_base64(&png))),
        Ok("3017620422003".to_string())
    );
}

#[test]
fn another_ean13_round_trip() {
    let png = symbol_png("5449000000996", rxing::BarcodeFormat::EAN_13, 400, 160);
    assert_eq!(scan_image(&png), Ok("5449000000996".to_string()));
}

#[test]
fn qr_code_round_trip() {
    let png = symbol_png("3017620422003", rxing::BarcodeFormat::QR_CODE, 300, 300);
    assert_eq!(
        extract_barcode(&ScanInput::RawImage(png)),
        Ok("3017620422003".to_string())
    );
}

#[test]
fn literal_barcode_is_taken_as_it_is() {
    assert_eq!(
        extract_barcode(&ScanInput::Barcode("3017620422003".to_string())),
        Ok("3017620422003".to_string())
    );
    assert_eq!(
        extract_barcode(&ScanInput::Barcode(String::new())),
        Ok(String::new())
    );
}

#[test]
fn decode_payload_gives_the_encoded_bytes() {
    assert_eq!(decode_payload("aGVsbG8="), Ok(b"hello".to_vec()));
    assert_eq!(decode_payload(""), Ok(Vec::new()));
    assert_eq!(decode_payload("AAEC/w=="), Ok(vec![0u8, 1, 2, 255]));
}

#[test]
fn malformed_base64_is_invalid_encoding() {
    for text in ["!!!not base64!!!", "abc", "aGVsbG8", "aGVsbG8=\n", "aGV sbG8=", "====", "a"] {
        assert_eq!(decode_payload(text), Err(IngestError::InvalidEncoding));
        assert_eq!(
            extract_barcode(&ScanInput::Base64Image(text.to_string())),
            Err(IngestError::InvalidEncoding)
        );
    }
}

#[test]
fn well_formed_base64_of_no_image_is_unsupported_image() {
    assert_eq!(
        extract_barcode(&ScanInput::Base64Image("aGVsbG8=".to_string())),
        Err(IngestError::UnsupportedImage)
    );
}

#[test]
fn bytes_that_are_no_image_are_unsupported_image() {
    assert_eq!(read_picture(b"hello"), Err(IngestError::UnsupportedImage));
    assert_eq!(read_picture(&[]), Err(IngestError::UnsupportedImage));
    assert_eq!(
        extract_barcode(&ScanInput::RawImage(b"not an image".to_vec())),
        Err(IngestError::UnsupportedImage)
    );
}

#[test]
fn truncated_png_is_unsupported_image() {
    let png = symbol_png("3017620422003", rxing::BarcodeFormat::EAN_13, 400, 160);
    let cut = &png[..png.len() / 2];
    assert_eq!(scan_image(cut), Err(IngestError::UnsupportedImage));
}

#[test]
fn image_without_symbol_is_barcode_not_found() {
    let png = blank_png(200, 100);
    assert_eq!(
        extract_barcode(&ScanInput::RawImage(png.clone())),
        Err(IngestError::BarcodeNotFound)
    );
    assert_eq!(
        extract_barcode(&ScanInput::Base64Image(as_base64(&png))),
        Err(IngestError::BarcodeNotFound)
    );
}

#[test]
fn read_picture_gives_the_grey_values() {
    let picture = read_picture(&blank_png(3, 2)).expect("a picture");
    assert_eq!(
        picture,
        LumaImage { width: 3, height: 2, pixels: vec![255u8; 6] }
    );
}

#[test]
fn scan_picture_reports_not_found() {
    let blank = LumaImage { width: 4, height: 4, pixels: vec![255u8; 16] };
    assert_eq!(scan_picture(&blank), BarcodeScanResult::NotFound);
}

#[test]
fn scan_picture_of_ill_formed_grid_is_not_found() {
    let short = LumaImage { width: 10, height: 10, pixels: vec![0u8; 7] };
    assert_eq!(scan_picture(&short), BarcodeScanResult::NotFound);
    let empty = LumaImage { width: 0, height: 0, pixels: Vec::new() };
    assert_eq!(scan_picture(&empty), BarcodeScanResult::NotFound);
}

#[test]
fn scan_picture_finds_the_symbol() {
    let png = symbol_png("3017620422003", rxing::BarcodeFormat::EAN_13, 400, 160);
    let picture = read_picture(&png).expect("a picture");
    assert_eq!(
        scan_picture(&picture),
        BarcodeScanResult::Found("3017620422003".to_string())
    );
}

#[test]
fn scan_result_turns_into_barcode_or_failure() {
    assert_eq!(
        BarcodeScanResult::Found("123".to_string()).into_barcode(),
        Ok("123".to_string())
    );
    assert_eq!(
        BarcodeScanResult::NotFound.into_barcode(),
        Err(IngestError::BarcodeNotFound)
    );
}

#[test]
fn failed_decoding_is_carried_past_the_scan() {
    assert_eq!(
        barcode_in(Err(IngestError::UnsupportedImage)),
        Err(IngestError::UnsupportedImage)
    );
    let blank = LumaImage { width: 4, height: 4, pixels: vec![255u8; 16] };
    assert_eq!(barcode_in(Ok(blank)), Err(IngestError::BarcodeNotFound));
}

#[test]
fn symbologies_are_tried_in_their_order() {
    assert_eq!(
        symbology_order(),
        vec![
            Symbology::Ean13,
            Symbology::Ean8,
            Symbology::UpcE,
            Symbology::Code128,
            Symbology::QrCode,
            Symbology::DataMatrix,
            Symbology::Aztec,
        ]
    );
}

#[test]
fn each_symbology_round_trip() {
    let cases = [
        ("96385074", rxing::BarcodeFormat::EAN_8, 300, 120),
        ("CATALOG-42", rxing::BarcodeFormat::CODE_128, 400, 120),
        ("3017620422003", rxing::BarcodeFormat::DATA_MATRIX, 200, 200),
        ("3017620422003", rxing::BarcodeFormat::AZTEC, 200, 200),
    ];
    for (contents, format, width, height) in cases {
        let png = symbol_png(contents, format, width, height);
        assert_eq!(scan_image(&png), Ok(contents.to_string()));
    }
}

#[test]
fn ean13_with_leading_zero_keeps_its_thirteen_digits() {
    let png = symbol_png("0012345678905", rxing::BarcodeFormat::EAN_13, 400, 160);
    assert_eq!(scan_image(&png), Ok("0012345678905".to_string()));
}

#[test]
fn input_copy_holds_the_same() {
    for input in [
        ScanInput::Barcode("3017620422003".to_string()),
        ScanInput::Base64Image("aGVsbG8=".to_string()),
        ScanInput::RawImage(vec![1, 2, 3]),
    ] {
        assert_eq!(input.clone(), input);
    }
}
