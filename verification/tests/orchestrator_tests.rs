use telegram_ai_analyzer::errors::ExtractionError;
use telegram_ai_analyzer::orchestrator::{Action, Event, FileKind, Orchestrator, Stage};

fn submitted(kind: FileKind, size: u64) -> Event {
    Event::Submitted {
        kind,
        file_id: "f1".to_string(),
        extension: "jpg".to_string(),
        size,
    }
}

fn start_downloaded() -> Orchestrator {
    let mut orch = Orchestrator::new("temp".to_string());
    orch.step(submitted(FileKind::Photo, 2048));
    orch.step(Event::Downloaded);
    orch
}

fn deleted_paths(acts: &[Action]) -> Vec<String> {
    acts.iter()
        .filter_map(|a| match a {
            Action::DeleteFile { path } => Some(path.clone()),
            _ => None,
        })
        .collect()
}

#[test]
fn oversized_document_is_rejected_before_any_artifact() {
    let mut orch = Orchestrator::new("temp".to_string());
    // 10.5 MiB
    let acts = orch.step(submitted(FileKind::Document, 10 * 1024 * 1024 + 512 * 1024));
    assert_eq!(orch.stage, Stage::Failed);
    assert!(orch.artifacts.is_empty());
    assert_eq!(acts.len(), 1);
    match &acts[0] {
        Action::SendMessage { text } => {
            assert_eq!(text, "⚠️ Le fichier est trop volumineux (max 10MB).")
        }
        _ => panic!("expected a rejection message"),
    }
}

#[test]
fn oversized_photo_is_rejected_too() {
    // the size limit holds for every incoming file, whatever its kind
    let mut orch = Orchestrator::new("temp".to_string());
    let acts = orch.step(submitted(FileKind::Photo, 10 * 1024 * 1024 + 1));
    assert_eq!(orch.stage, Stage::Failed);
    assert!(orch.artifacts.is_empty());
    assert_eq!(acts.len(), 1);
    assert!(matches!(&acts[0], Action::SendMessage { .. }));
}

#[test]
fn accepted_file_downloads_into_a_scratch_path() {
    let mut orch = Orchestrator::new("temp".to_string());
    let acts = orch.step(submitted(FileKind::Photo, 2048));
    assert_eq!(orch.stage, Stage::Downloading);
    assert_eq!(orch.artifacts, vec!["temp/f1.jpg".to_string()]);
    assert!(matches!(&acts[0], Action::ShowProgress { .. }));
    match &acts[1] {
        Action::CreateAndDownload { path } => assert_eq!(path, "temp/f1.jpg"),
        _ => panic!("expected the download action"),
    }
}

#[test]
fn download_failure_cleans_the_scratch_file() {
    let mut orch = Orchestrator::new("temp".to_string());
    orch.step(submitted(FileKind::Photo, 2048));
    let acts = orch.step(Event::DownloadFailed { detail: "réseau coupé".to_string() });
    assert_eq!(orch.stage, Stage::Failed);
    assert!(orch.artifacts.is_empty());
    assert!(matches!(&acts[0], Action::RemoveProgress));
    match &acts[1] {
        Action::SendMessage { text } => {
            assert_eq!(text, "❌ Erreur de téléchargement : réseau coupé")
        }
        _ => panic!("expected an error message"),
    }
    assert_eq!(deleted_paths(&acts), vec!["temp/f1.jpg".to_string()]);
}

#[test]
fn extraction_failure_cleans_the_scratch_file() {
    let mut orch = start_downloaded();
    assert_eq!(orch.stage, Stage::Extracting);
    let acts = orch.step(Event::ExtractFailed { error: ExtractionError::NoTextFound });
    assert_eq!(orch.stage, Stage::Failed);
    assert!(orch.artifacts.is_empty());
    match &acts[1] {
        Action::SendMessage { text } => assert_eq!(
            text,
            "❌ Erreur d'extraction : Aucun texte n'a pu être extrait de l'image"
        ),
        _ => panic!("expected an error message"),
    }
    assert_eq!(deleted_paths(&acts), vec!["temp/f1.jpg".to_string()]);
}

#[test]
fn analysis_failure_cleans_the_scratch_file() {
    let mut orch = start_downloaded();
    orch.step(Event::Extracted { text: "du texte".to_string() });
    let acts = orch.step(Event::AnalysisFailed { detail: "délai dépassé".to_string() });
    assert_eq!(orch.stage, Stage::Failed);
    assert!(orch.artifacts.is_empty());
    assert_eq!(deleted_paths(&acts), vec!["temp/f1.jpg".to_string()]);
}

#[test]
fn result_of_3999_characters_goes_inline() {
    let mut orch = start_downloaded();
    orch.step(Event::Extracted { text: "texte".to_string() });
    let body: String = "a".repeat(3999);
    let acts = orch.step(Event::Analyzed { text: body.clone() });
    assert_eq!(orch.stage, Stage::Done);
    assert!(orch.artifacts.is_empty());
    match &acts[0] {
        Action::SendMessage { text } => assert_eq!(text, &body),
        _ => panic!("expected the inline message"),
    }
    assert!(matches!(&acts[1], Action::RemoveProgress));
    assert_eq!(deleted_paths(&acts), vec!["temp/f1.jpg".to_string()]);
}

#[test]
fn result_of_4001_characters_goes_as_a_file_with_exact_content() {
    let mut orch = start_downloaded();
    orch.step(Event::Extracted { text: "texte".to_string() });
    let body: String = "a".repeat(4001);
    let acts = orch.step(Event::Analyzed { text: body.clone() });
    assert_eq!(orch.stage, Stage::Delivering);
    assert_eq!(acts.len(), 1);
    match &acts[0] {
        Action::SaveReport { path, content } => {
            assert_eq!(path, "temp/analyse_f1.md");
            // the attached file's content is exactly the normalized text
            assert_eq!(content, &body);
        }
        _ => panic!("expected the report to be written"),
    }
    let acts = orch.step(Event::ReportSaved);
    match &acts[0] {
        Action::SendDocument { path, caption } => {
            assert_eq!(path, "temp/analyse_f1.md");
            assert_eq!(
                caption,
                "✅ Analyse terminée ! Le rapport était trop long pour un message direct."
            );
        }
        _ => panic!("expected the document to be sent"),
    }
    let acts = orch.step(Event::Delivered);
    assert_eq!(orch.stage, Stage::Done);
    assert!(orch.artifacts.is_empty());
    assert_eq!(
        deleted_paths(&acts),
        vec!["temp/f1.jpg".to_string(), "temp/analyse_f1.md".to_string()]
    );
}

#[test]
fn report_save_failure_still_cleans_the_download() {
    let mut orch = start_downloaded();
    orch.step(Event::Extracted { text: "texte".to_string() });
    orch.step(Event::Analyzed { text: "b".repeat(4100) });
    let acts = orch.step(Event::ReportSaveFailed);
    assert_eq!(orch.stage, Stage::Failed);
    assert!(orch.artifacts.is_empty());
    assert_eq!(deleted_paths(&acts), vec!["temp/f1.jpg".to_string()]);
}

#[test]
fn empty_analysis_reports_no_content_without_failing() {
    let mut orch = start_downloaded();
    orch.step(Event::Extracted { text: "texte".to_string() });
    let acts = orch.step(Event::Analyzed { text: "\n\n  \n".to_string() });
    assert_eq!(orch.stage, Stage::Done);
    match &acts[0] {
        Action::SendMessage { text } => assert_eq!(text, "⚠️ L'IA n'a retourné aucun contenu."),
        _ => panic!("expected the no-content notice"),
    }
    assert_eq!(deleted_paths(&acts), vec!["temp/f1.jpg".to_string()]);
}

#[test]
fn photo_with_printed_text_flows_end_to_end_inline() {
    // a 2 KB JPEG arrives, OCR finds text, the AI returns a short result
    let mut orch = Orchestrator::new("temp".to_string());
    let acts = orch.step(submitted(FileKind::Photo, 2048));
    assert!(matches!(&acts[0], Action::ShowProgress { .. }));
    let acts = orch.step(Event::Downloaded);
    match &acts[0] {
        Action::RunExtraction { path, extension } => {
            assert_eq!(path, "temp/f1.jpg");
            assert_eq!(extension, "jpg");
        }
        _ => panic!("expected extraction to run"),
    }
    let acts = orch.step(Event::Extracted { text: "Bonjour le monde".to_string() });
    assert!(matches!(&acts[0], Action::EditProgress { .. }));
    match &acts[1] {
        Action::RunAnalysis { text } => assert_eq!(text, "Bonjour le monde"),
        _ => panic!("expected analysis to run"),
    }
    let acts = orch.step(Event::Analyzed { text: "## Titre\nContenu".to_string() });
    assert_eq!(orch.stage, Stage::Done);
    assert!(orch.artifacts.is_empty());
    match &acts[0] {
        Action::SendMessage { text } => assert_eq!(text, "## Titre\nContenu"),
        _ => panic!("expected the inline result"),
    }
    assert!(matches!(&acts[1], Action::RemoveProgress));
    assert_eq!(deleted_paths(&acts), vec!["temp/f1.jpg".to_string()]);
}

#[test]
fn normalization_runs_before_delivery() {
    let mut orch = start_downloaded();
    orch.step(Event::Extracted { text: "texte".to_string() });
    let acts = orch.step(Event::Analyzed { text: "Texte\n\n\n\nSuite".to_string() });
    match &acts[0] {
        Action::SendMessage { text } => assert_eq!(text, "Texte\n\nSuite"),
        _ => panic!("expected the inline result"),
    }
}
