//! Text extraction from a raster image: the OCR engine runs outside; this
//! module turns its outcome into cleaned text or a typed failure.

use vstd::prelude::*;
use crate::errors::{ExtractionError, Tool};
use crate::text::{clean_spec, clean_lines};
use crate::tool::ToolOutcome;
use vstd::string::*;

verus! {

/// Cleans raw OCR output: trims every line, drops the empty ones, and
/// joins the rest with single newlines.
pub fn clean_extracted_text(text: &str) -> (r: String)
    ensures
        r@ == clean_spec(text@),
{
    clean_lines(text)
}

/// Turns one OCR run over the image at `path` into its cleaned text.
/// Success comes exactly when the engine ran, exited well, produced valid
/// text, and cleaning left something; each failure mode has its own error.
pub fn extract_text_from_image(path: &str, run: &ToolOutcome) -> (r: Result<
    String,
    ExtractionError,
>)
    ensures
        run is InputMissing ==> (r matches Err(ExtractionError::NotFound { path: p, pdf })
            && p@ == path@ && !pdf),
        run is LaunchFailed ==> (r matches Err(ExtractionError::EngineUnavailable { tool })
            && tool == Tool::Tesseract),
        run matches ToolOutcome::Finished { success: false, code, stderr, .. } ==> (r matches Err(
            ExtractionError::EngineFailed { tool, code: c, stderr: e },
        ) && tool == Tool::Tesseract && c == code && e@ == stderr@),
        run matches ToolOutcome::Finished { success: true, stdout: None, .. } ==> (r matches Err(
            ExtractionError::DecodeError { tool },
        ) && tool == Tool::Tesseract),
        run matches ToolOutcome::Finished { success: true, stdout: Some(text), .. } ==> (
        if clean_spec(text@).len() == 0 {
            r matches Err(ExtractionError::NoTextFound)
        } else {
            r matches Ok(t) && t@ == clean_spec(text@)
        }),
{
    match run {
        ToolOutcome::InputMissing => Err(
            ExtractionError::NotFound { path: path.to_owned(), pdf: false },
        ),
        ToolOutcome::LaunchFailed => Err(
            ExtractionError::EngineUnavailable { tool: Tool::Tesseract },
        ),
        ToolOutcome::Finished { success, code, stdout, stderr } => {
            if !*success {
                Err(
                    ExtractionError::EngineFailed {
                        tool: Tool::Tesseract,
                        code: *code,
                        stderr: stderr.clone(),
                    },
                )
            } else {
                match stdout {
                    None => Err(ExtractionError::DecodeError { tool: Tool::Tesseract }),
                    Some(text) => {
                        let cleaned = clean_extracted_text(text.as_str());
                        if cleaned.as_str().is_empty() {
                            Err(ExtractionError::NoTextFound)
                        } else {
                            Ok(cleaned)
                        }
                    },
                }
            }
        },
    }
}

} // verus!
