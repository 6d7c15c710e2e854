use telegram_ai_analyzer::errors::{ExtractionError, Tool};
use telegram_ai_analyzer::image::extract_text_from_image;
use telegram_ai_analyzer::tool::ToolOutcome;

fn finished(success: bool, code: i64, stdout: Option<&str>, stderr: &str) -> ToolOutcome {
    ToolOutcome::Finished {
        success,
        code,
        stdout: stdout.map(|s| s.to_string()),
        stderr: stderr.to_string(),
    }
}

#[test]
fn ocr_output_is_cleaned() {
    let run = finished(true, 0, Some("  Ligne 1  \n\n  Ligne 2  "), "");
    let text = extract_text_from_image("temp/x.jpg", &run).unwrap();
    assert_eq!(text, "Ligne 1\nLigne 2");
}

#[test]
fn missing_image_is_not_found() {
    let err = extract_text_from_image("temp/x.jpg", &ToolOutcome::InputMissing).unwrap_err();
    match err {
        ExtractionError::NotFound { path, pdf } => {
            assert_eq!(path, "temp/x.jpg");
            assert!(!pdf);
            // the message points at the missing image
        }
        other => panic!("wrong error: {:?}", other),
    }
}

#[test]
fn engine_unavailable_message_explains_how_to_get_it() {
    let err = extract_text_from_image("p.png", &ToolOutcome::LaunchFailed).unwrap_err();
    assert!(matches!(
        err,
        ExtractionError::EngineUnavailable { tool: Tool::Tesseract }
    ));
    assert_eq!(
        err.message(),
        "Échec du lancement de Tesseract. Vérifiez s'il est installé et présent dans le PATH."
    );
}

#[test]
fn engine_failure_carries_code_and_stderr() {
    let run = finished(false, 3, None, "boom");
    let err = extract_text_from_image("p.png", &run).unwrap_err();
    assert_eq!(err.message(), "Erreur Tesseract (code 3) : boom");
}

#[test]
fn engine_failure_with_negative_code() {
    let run = finished(false, -1, None, "tué");
    let err = extract_text_from_image("p.png", &run).unwrap_err();
    assert_eq!(err.message(), "Erreur Tesseract (code -1) : tué");
}

#[test]
fn undecodable_output_is_decode_error() {
    let run = finished(true, 0, None, "");
    let err = extract_text_from_image("p.png", &run).unwrap_err();
    assert!(matches!(err, ExtractionError::DecodeError { tool: Tool::Tesseract }));
    assert_eq!(
        err.message(),
        "Le texte extrait par Tesseract n'est pas de l'UTF-8 valide"
    );
}

#[test]
fn blank_output_is_no_text_found() {
    let run = finished(true, 0, Some("   \n  \n"), "");
    let err = extract_text_from_image("p.png", &run).unwrap_err();
    assert!(matches!(err, ExtractionError::NoTextFound));
    assert_eq!(err.message(), "Aucun texte n'a pu être extrait de l'image");
}
