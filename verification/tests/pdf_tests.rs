use lopdf::content::{Content, Operation};
use lopdf::{Dictionary, Document, Object, Stream};
use telegram_ai_analyzer::errors::{ExtractionError, Tool};
use telegram_ai_analyzer::pdf::{
    extract_text_from_pdf, is_scanned_pdf, load_pdf, rasterize_check, searchable_text_from_run,
    PageOcrRun, PageStep, PdfPlan,
};
use telegram_ai_analyzer::tool::ToolOutcome;

/// A PDF with one page per entry, each page showing its text (possibly
/// empty) through a simple Courier font.
fn build_pdf(texts: &[&str]) -> Document {
    let mut doc = Document::with_version("1.5");
    let pages_id = doc.new_object_id();
    let mut font = Dictionary::new();
    font.set("Type", Object::Name(b"Font".to_vec()));
    font.set("Subtype", Object::Name(b"Type1".to_vec()));
    font.set("BaseFont", Object::Name(b"Courier".to_vec()));
    let font_id = doc.add_object(font);
    let mut fonts = Dictionary::new();
    fonts.set("F1", Object::Reference(font_id));
    let mut resources = Dictionary::new();
    resources.set("Font", Object::Dictionary(fonts));
    let resources_id = doc.add_object(resources);
    let mut kids: Vec<Object> = Vec::new();
    for text in texts {
        let mut operations = vec![
            Operation::new("BT", vec![]),
            Operation::new(
                "Tf",
                vec![Object::Name(b"F1".to_vec()), Object::Integer(36)],
            ),
            Operation::new("Td", vec![Object::Integer(100), Object::Integer(600)]),
        ];
        if !text.is_empty() {
            operations.push(Operation::new("Tj", vec![Object::string_literal(*text)]));
        }
        operations.push(Operation::new("ET", vec![]));
        let content = Content { operations };
        let content_id = doc.add_object(Stream::new(
            Dictionary::new(),
            content.encode().unwrap(),
        ));
        let mut page = Dictionary::new();
        page.set("Type", Object::Name(b"Page".to_vec()));
        page.set("Parent", Object::Reference(pages_id));
        page.set("Contents", Object::Reference(content_id));
        page.set("Resources", Object::Reference(resources_id));
        page.set(
            "MediaBox",
            Object::Array(vec![
                Object::Integer(0),
                Object::Integer(0),
                Object::Integer(612),
                Object::Integer(792),
            ]),
        );
        let page_id = doc.add_object(page);
        kids.push(Object::Reference(page_id));
    }
    let mut pages = Dictionary::new();
    pages.set("Type", Object::Name(b"Pages".to_vec()));
    pages.set("Count", Object::Integer(texts.len() as i64));
    pages.set("Kids", Object::Array(kids));
    doc.objects.insert(pages_id, Object::Dictionary(pages));
    let mut catalog = Dictionary::new();
    catalog.set("Type", Object::Name(b"Catalog".to_vec()));
    catalog.set("Pages", Object::Reference(pages_id));
    let catalog_id = doc.add_object(catalog);
    doc.trailer.set("Root", Object::Reference(catalog_id));
    doc
}

#[test]
fn pdf_with_text_on_first_page_is_searchable() {
    let doc = build_pdf(&["Bonjour tout le monde, voici du texte.", "", ""]);
    assert_eq!(is_scanned_pdf(&doc).unwrap(), false);
    assert_eq!(extract_text_from_pdf(&doc).unwrap(), PdfPlan::Searchable);
}

#[test]
fn pdf_with_no_text_on_first_three_pages_is_scanned() {
    let doc = build_pdf(&["", "petit", ""]);
    assert_eq!(is_scanned_pdf(&doc).unwrap(), true);
    assert_eq!(extract_text_from_pdf(&doc).unwrap(), PdfPlan::Scanned);
}

#[test]
fn classifier_samples_only_the_first_three_pages() {
    // the fourth page holds plenty of text, but only pages 1-3 are sampled
    let doc = build_pdf(&["", "", "", "Beaucoup de texte sur la page quatre."]);
    assert_eq!(is_scanned_pdf(&doc).unwrap(), true);
}

#[test]
fn searchable_wins_regardless_of_later_pages() {
    let doc = build_pdf(&["Une premiere page bien remplie de texte.", "", "", ""]);
    assert_eq!(extract_text_from_pdf(&doc).unwrap(), PdfPlan::Searchable);
}

#[test]
fn saved_pdf_round_trips_through_load() {
    let mut doc = build_pdf(&["Du texte assez long pour compter ici."]);
    let mut bytes: Vec<u8> = Vec::new();
    doc.save_to(&mut bytes).unwrap();
    let loaded = load_pdf(&bytes).unwrap();
    assert_eq!(is_scanned_pdf(&loaded).unwrap(), false);
}

#[test]
fn garbage_bytes_fail_to_load() {
    let bytes: Vec<u8> = b"pas un pdf du tout".to_vec();
    let err = load_pdf(&bytes).unwrap_err();
    assert!(matches!(err, ExtractionError::DocumentLoadError { .. }));
}

#[test]
fn searchable_run_output_is_cleaned() {
    let run = ToolOutcome::Finished {
        success: true,
        code: 0,
        stdout: Some("  Ligne 1  \n\n  Ligne 2  ".to_string()),
        stderr: String::new(),
    };
    assert_eq!(
        searchable_text_from_run("d.pdf", &run).unwrap(),
        "Ligne 1\nLigne 2"
    );
}

#[test]
fn searchable_run_with_blank_output_finds_no_text() {
    // extracted text is non-empty on success
    let run = ToolOutcome::Finished {
        success: true,
        code: 0,
        stdout: Some("   \n \t \n".to_string()),
        stderr: String::new(),
    };
    let err = searchable_text_from_run("d.pdf", &run).unwrap_err();
    assert!(matches!(err, ExtractionError::NoTextFound));
}

#[test]
fn searchable_tool_missing_is_engine_unavailable() {
    let err = searchable_text_from_run("d.pdf", &ToolOutcome::LaunchFailed).unwrap_err();
    assert!(matches!(
        err,
        ExtractionError::EngineUnavailable { tool: Tool::PdfToText }
    ));
    assert_eq!(
        err.message(),
        "Échec de l'exécution de 'pdftotext'. Est-il installé (poppler-utils) ?"
    );
}

#[test]
fn rasterizer_failure_carries_stderr() {
    let run = ToolOutcome::Finished {
        success: false,
        code: 1,
        stdout: None,
        stderr: "mauvais pdf".to_string(),
    };
    let err = rasterize_check("d.pdf", &run).unwrap_err();
    assert_eq!(err.message(), "Erreur pdftoppm : mauvais pdf");
    let ok = ToolOutcome::Finished {
        success: true,
        code: 0,
        stdout: None,
        stderr: String::new(),
    };
    assert!(rasterize_check("d.pdf", &ok).is_ok());
}

fn ocr_ok(text: &str) -> ToolOutcome {
    ToolOutcome::Finished {
        success: true,
        code: 0,
        stdout: Some(text.to_string()),
        stderr: String::new(),
    }
}

#[test]
fn page_ocr_joins_pages_with_blank_lines_and_deletes_each_image() {
    let mut run = PageOcrRun::start(vec!["a.png".to_string(), "b.png".to_string()]);
    assert_eq!(run.next_image().unwrap(), "a.png");
    match run.page_done(&ocr_ok("Page un")) {
        PageStep::Advanced { delete } => assert_eq!(delete, "a.png"),
        other => panic!("wrong step: {:?}", step_name(&other)),
    }
    assert_eq!(run.next_image().unwrap(), "b.png");
    match run.page_done(&ocr_ok("Page deux")) {
        PageStep::Finished { delete, text } => {
            assert_eq!(delete, "b.png");
            assert_eq!(text, "Page un\n\nPage deux");
        }
        other => panic!("wrong step: {:?}", step_name(&other)),
    }
    assert!(run.next_image().is_none());
}

#[test]
fn page_ocr_failure_aborts_and_deletes_all_remaining_images() {
    let mut run = PageOcrRun::start(vec![
        "p1.png".to_string(),
        "p2.png".to_string(),
        "p3.png".to_string(),
    ]);
    match run.page_done(&ocr_ok("Texte")) {
        PageStep::Advanced { delete } => assert_eq!(delete, "p1.png"),
        other => panic!("wrong step: {:?}", step_name(&other)),
    }
    let bad = ToolOutcome::Finished {
        success: false,
        code: 2,
        stdout: None,
        stderr: "illisible".to_string(),
    };
    match run.page_done(&bad) {
        PageStep::Aborted { deletes, error } => {
            assert_eq!(deletes, vec!["p2.png".to_string(), "p3.png".to_string()]);
            assert!(matches!(
                error,
                ExtractionError::EngineFailed { tool: Tool::Tesseract, code: 2, .. }
            ));
        }
        other => panic!("wrong step: {:?}", step_name(&other)),
    }
    assert!(run.next_image().is_none());
}

fn step_name(s: &PageStep) -> &'static str {
    match s {
        PageStep::Advanced { .. } => "Advanced",
        PageStep::Finished { .. } => "Finished",
        PageStep::Aborted { .. } => "Aborted",
    }
}
