use telegram_ai_analyzer::dispatch::{select_extractor, ExtractorKind};
use telegram_ai_analyzer::errors::ExtractionError;

#[test]
fn pdf_any_case_routes_to_pdf_extractor() {
    assert_eq!(select_extractor("PDF").unwrap(), ExtractorKind::Pdf);
    assert_eq!(select_extractor("pdf").unwrap(), ExtractorKind::Pdf);
    assert_eq!(select_extractor("Pdf").unwrap(), ExtractorKind::Pdf);
}

#[test]
fn raster_extensions_route_to_image_extractor() {
    assert_eq!(select_extractor("webp").unwrap(), ExtractorKind::Image);
    assert_eq!(select_extractor("jpg").unwrap(), ExtractorKind::Image);
    assert_eq!(select_extractor("JpEg").unwrap(), ExtractorKind::Image);
    assert_eq!(select_extractor("PNG").unwrap(), ExtractorKind::Image);
}

#[test]
fn docx_is_unsupported() {
    let err = select_extractor("docx").unwrap_err();
    match err {
        ExtractionError::UnsupportedFormat { extension } => assert_eq!(extension, "docx"),
        other => panic!("wrong error: {:?}", other),
    }
}

#[test]
fn empty_extension_is_unsupported() {
    assert!(matches!(
        select_extractor(""),
        Err(ExtractionError::UnsupportedFormat { .. })
    ));
}

#[test]
fn unsupported_format_message_names_the_extension() {
    let err = select_extractor("docx").unwrap_err();
    assert_eq!(err.message(), "Format non supporté (docx)");
}
