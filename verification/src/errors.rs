//! The extraction error taxonomy and the user-visible message each error
//! carries.

use vstd::prelude::*;
use vstd::string::*;
use crate::text::{dec_spec, dec_signed_spec, dec_u64, dec_i64};

verus! {

/// The external tool whose invocation an error speaks of.
#[derive(Clone, Copy, PartialEq, Eq, Structural, Debug)]
pub enum Tool {
    /// The OCR engine run on raster images.
    Tesseract,
    /// The layout-preserving text extractor for searchable PDFs.
    PdfToText,
    /// The page rasterizer for scanned PDFs.
    PdfToPpm,
}

/// Why extraction failed. Every variant carries what its user-visible
/// message needs.
#[derive(Debug)]
pub enum ExtractionError {
    /// The input file is gone; `pdf` selects the wording.
    NotFound { path: String, pdf: bool },
    /// The external tool could not be started at all.
    EngineUnavailable { tool: Tool },
    /// The external tool ran and exited with a failure.
    EngineFailed { tool: Tool, code: i64, stderr: String },
    /// The external tool's output was not valid text.
    DecodeError { tool: Tool },
    /// Cleaning left nothing: the image held no recognizable text.
    NoTextFound,
    /// The file extension maps to no extractor.
    UnsupportedFormat { extension: String },
    /// The PDF's structure could not be parsed.
    DocumentLoadError { detail: String },
    /// The embedded text of one sampled page could not be read.
    PageExtractionError { page: u32, detail: String },
}

impl ExtractionError {
    /// The user-visible explanation of this error; for a missing engine it
    /// names the tool and how to obtain it.
    pub open spec fn message_spec(self) -> Seq<char> {
        match self {
            ExtractionError::NotFound { path, pdf } => if pdf {
                "Le fichier PDF n'existe pas : "@ + path@
            } else {
                "Le fichier image n'existe pas : "@ + path@
            },
            ExtractionError::EngineUnavailable { tool } => match tool {
                Tool::Tesseract => "Échec du lancement de Tesseract. Vérifiez s'il est installé et présent dans le PATH."@,
                Tool::PdfToText => "Échec de l'exécution de 'pdftotext'. Est-il installé (poppler-utils) ?"@,
                Tool::PdfToPpm => "Échec de 'pdftoppm'. Est-il installé (poppler-utils) ?"@,
            },
            ExtractionError::EngineFailed { tool, code, stderr } => match tool {
                Tool::Tesseract => "Erreur Tesseract (code "@ + dec_signed_spec(code as int)
                    + ") : "@ + stderr@,
                Tool::PdfToText => "Erreur pdftotext : "@ + stderr@,
                Tool::PdfToPpm => "Erreur pdftoppm : "@ + stderr@,
            },
            ExtractionError::DecodeError { tool } => match tool {
                Tool::Tesseract => "Le texte extrait par Tesseract n'est pas de l'UTF-8 valide"@,
                Tool::PdfToText => "Le texte extrait par pdftotext n'est pas de l'UTF-8 valide"@,
                Tool::PdfToPpm => "Le texte extrait par pdftoppm n'est pas de l'UTF-8 valide"@,
            },
            ExtractionError::NoTextFound => "Aucun texte n'a pu être extrait de l'image"@,
            ExtractionError::UnsupportedFormat { extension } => "Format non supporté ("@
                + extension@ + ")"@,
            ExtractionError::DocumentLoadError { detail } => "Erreur lors du chargement du PDF avec lopdf: "@
                + detail@,
            ExtractionError::PageExtractionError { page, detail } => "Erreur d'extraction sur la page "@
                + dec_spec(page as nat) + ": "@ + detail@,
        }
    }

    /// Builds the user-visible message.
    pub fn message(&self) -> (r: String)
        ensures
            r@ == self.message_spec(),
    {
        match self {
            ExtractionError::NotFound { path, pdf } => {
                let mut r = if *pdf {
                    String::from_str("Le fichier PDF n'existe pas : ")
                } else {
                    String::from_str("Le fichier image n'existe pas : ")
                };
                r.append(path.as_str());
                r
            },
            ExtractionError::EngineUnavailable { tool } => match tool {
                Tool::Tesseract => String::from_str(
                    "Échec du lancement de Tesseract. Vérifiez s'il est installé et présent dans le PATH.",
                ),
                Tool::PdfToText => String::from_str(
                    "Échec de l'exécution de 'pdftotext'. Est-il installé (poppler-utils) ?",
                ),
                Tool::PdfToPpm => String::from_str(
                    "Échec de 'pdftoppm'. Est-il installé (poppler-utils) ?",
                ),
            },
            ExtractionError::EngineFailed { tool, code, stderr } => match tool {
                Tool::Tesseract => {
                    let mut r = String::from_str("Erreur Tesseract (code ");
                    let c = dec_i64(*code);
                    r.append(c.as_str());
                    r.append(") : ");
                    r.append(stderr.as_str());
                    r
                },
                Tool::PdfToText => {
                    let mut r = String::from_str("Erreur pdftotext : ");
                    r.append(stderr.as_str());
                    r
                },
                Tool::PdfToPpm => {
                    let mut r = String::from_str("Erreur pdftoppm : ");
                    r.append(stderr.as_str());
                    r
                },
            },
            ExtractionError::DecodeError { tool } => match tool {
                Tool::Tesseract => String::from_str(
                    "Le texte extrait par Tesseract n'est pas de l'UTF-8 valide",
                ),
                Tool::PdfToText => String::from_str(
                    "Le texte extrait par pdftotext n'est pas de l'UTF-8 valide",
                ),
                Tool::PdfToPpm => String::from_str(
                    "Le texte extrait par pdftoppm n'est pas de l'UTF-8 valide",
                ),
            },
            ExtractionError::NoTextFound => String::from_str(
                "Aucun texte n'a pu être extrait de l'image",
            ),
            ExtractionError::UnsupportedFormat { extension } => {
                let mut r = String::from_str("Format non supporté (");
                r.append(extension.as_str());
                r.append(")");
                r
            },
            ExtractionError::DocumentLoadError { detail } => {
                let mut r = String::from_str("Erreur lors du chargement du PDF avec lopdf: ");
                r.append(detail.as_str());
                r
            },
            ExtractionError::PageExtractionError { page, detail } => {
                let mut r = String::from_str("Erreur d'extraction sur la page ");
                let p = dec_u64(*page as u64);
                r.append(p.as_str());
                r.append(": ");
                r.append(detail.as_str());
                r
            },
        }
    }
}

} // verus!
