use telegram_ai_analyzer::image::clean_extracted_text;
use telegram_ai_analyzer::pdf::clean_pdf_text;

#[test]
fn test_clean_pdf_text() {
    let input = "  Ligne 1  \n\n  Ligne 2  ";
    assert_eq!(clean_pdf_text(input), "Ligne 1\nLigne 2");
}

#[test]
fn clean_extracted_text_trims_and_drops_blank_lines() {
    let input = "  Ligne 1  \n\n  Ligne 2  ";
    assert_eq!(clean_extracted_text(input), "Ligne 1\nLigne 2");
}

#[test]
fn clean_handles_carriage_returns() {
    assert_eq!(clean_extracted_text("un\r\n\r\ndeux\r\n"), "un\ndeux");
}

#[test]
fn clean_of_blank_input_is_empty() {
    assert_eq!(clean_extracted_text("   \n \t \n  "), "");
    assert_eq!(clean_pdf_text(""), "");
}

#[test]
fn clean_keeps_inner_spacing() {
    assert_eq!(clean_pdf_text("  a  b  \n c "), "a  b\nc");
}
