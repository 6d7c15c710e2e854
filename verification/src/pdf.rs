//! Hybrid PDF text extraction. A PDF is classified by the embedded text of
//! its first pages: searchable documents go to the layout-preserving text
//! tool, scanned ones are rasterized and each page image is OCR'd in order,
//! every page image being deleted as soon as it is consumed or the run
//! aborts. The PDF structure itself is read through lopdf.

use vstd::prelude::*;
use vstd::string::*;
use crate::errors::{ExtractionError, Tool};
use crate::image::extract_text_from_image;
use crate::text::{clean_spec, clean_lines, is_space_char, chars_of, char_is_space};
use crate::tool::ToolOutcome;

verus! {

#[verifier::external_type_specification]
#[verifier::external_body]
pub struct ExDocument(lopdf::Document);

/// The embedded text of each page of the document, in page order: what
/// lopdf's `extract_text` yields page by page.
pub uninterp spec fn pdf_page_texts(doc: lopdf::Document) -> Seq<Seq<char>>;

/// Whether these bytes parse as a PDF: what lopdf's `Document::load_mem`
/// accepts, a function of the bytes alone.
pub uninterp spec fn pdf_parses(bytes: Seq<u8>) -> bool;

/// Relies on lopdf's `Document::load_mem`, which parses a PDF from bytes,
/// deterministically, and fails exactly on malformed structure.
#[verifier::external_body]
fn lopdf_load(bytes: &Vec<u8>) -> (r: Result<lopdf::Document, String>)
    ensures
        r is Ok <==> pdf_parses(bytes@),
{
    match lopdf::Document::load_mem(bytes.as_slice()) {
        Ok(d) => Ok(d),
        Err(e) => Err(e.to_string()),
    }
}

/// Relies on lopdf's `Document::get_pages`, which numbers the document's
/// pages 1 through their count, in order.
#[verifier::external_body]
fn pdf_page_count(doc: &lopdf::Document) -> (r: usize)
    ensures
        r == pdf_page_texts(*doc).len(),
{
    doc.get_pages().len()
}

/// Relies on lopdf's `Document::extract_text` over a single page: the
/// embedded text returned is a function of the document and the page
/// number alone.
#[verifier::external_body]
fn pdf_extract_page(doc: &lopdf::Document, page: u32) -> (r: Result<String, String>)
    requires
        1 <= page,
        page as nat <= pdf_page_texts(*doc).len(),
    ensures
        r matches Ok(t) ==> t@ == pdf_page_texts(*doc)[page - 1],
{
    match doc.extract_text(&[page]) {
        Ok(t) => Ok(t),
        Err(e) => Err(e.to_string()),
    }
}

/// Parses PDF bytes: a document exactly when the bytes form a well-formed
/// PDF, a document load error otherwise.
pub fn load_pdf(bytes: &Vec<u8>) -> (r: Result<lopdf::Document, ExtractionError>)
    ensures
        r is Ok <==> pdf_parses(bytes@),
        r matches Err(e) ==> e matches ExtractionError::DocumentLoadError { .. },
{
    match lopdf_load(bytes) {
        Ok(d) => Ok(d),
        Err(m) => Err(ExtractionError::DocumentLoadError { detail: m }),
    }
}

/// How many characters of `s` are not whitespace.
pub open spec fn count_non_space(s: Seq<char>) -> nat
    decreases s.len(),
{
    if s.len() == 0 {
        0
    } else {
        count_non_space(s.drop_last()) + if is_space_char(s.last()) {
            0nat
        } else {
            1nat
        }
    }
}

/// A sampled page holds enough embedded text to call the document
/// searchable: more than ten non-whitespace characters.
pub open spec fn page_has_text(s: Seq<char>) -> bool {
    count_non_space(s) > 10
}

fn count_non_space_exec(t: &str) -> (r: usize)
    ensures
        r == count_non_space(t@),
{
    let cs = chars_of(t);
    let n = cs.len();
    let mut r: usize = 0;
    let mut i: usize = 0;
    while i < n
        invariant
            n == cs@.len(),
            i <= n,
            r == count_non_space(cs@.take(i as int)),
            r <= i,
        decreases n - i,
    {
        proof {
            assert(cs@.take(i + 1 as int).drop_last() =~= cs@.take(i as int));
            assert(cs@.take(i + 1 as int).last() == cs@[i as int]);
        }
        if !char_is_space(cs[i]) {
            r += 1;
        }
        i += 1;
    }
    proof {
        assert(cs@.take(n as int) =~= cs@);
    }
    r
}

/// The number of pages sampled by the classifier: the first three, or all
/// of them when the document is shorter.
pub open spec fn sample_count(doc: lopdf::Document) -> nat {
    if pdf_page_texts(doc).len() < 3 {
        pdf_page_texts(doc).len()
    } else {
        3
    }
}

/// Decides whether the document is scanned: it samples at most the first
/// three pages and calls the document searchable as soon as one holds more
/// than ten non-whitespace characters of embedded text, scanned when none
/// does. A page whose embedded text cannot be read fails the
/// classification with that page's number.
pub fn is_scanned_pdf(doc: &lopdf::Document) -> (r: Result<bool, ExtractionError>)
    ensures
        r == Ok::<bool, ExtractionError>(true) ==> forall|j: int|
            0 <= j < sample_count(*doc) ==> !page_has_text(#[trigger] pdf_page_texts(*doc)[j]),
        r == Ok::<bool, ExtractionError>(false) ==> exists|j: int|
            0 <= j < sample_count(*doc) && page_has_text(#[trigger] pdf_page_texts(*doc)[j])
                && (forall|j2: int| 0 <= j2 < j ==> !page_has_text(
                #[trigger] pdf_page_texts(*doc)[j2])),
        r matches Err(e) ==> (e matches ExtractionError::PageExtractionError { page, .. } && 1
            <= page && page as nat <= sample_count(*doc)),
        sample_count(*doc) >= 1 && page_has_text(pdf_page_texts(*doc)[0]) ==> (r == Ok::<
            bool,
            ExtractionError,
        >(false) || (r matches Err(ExtractionError::PageExtractionError { page, .. }) && page
            == 1)),
        // whenever the sampled pages were readable, the verdict is forced:
        // no text on any sampled page means scanned, text on the first
        // page means searchable
        (forall|j: int|
            0 <= j < sample_count(*doc) ==> !page_has_text(#[trigger] pdf_page_texts(*doc)[j]))
            && r is Ok ==> r == Ok::<bool, ExtractionError>(true),
        sample_count(*doc) >= 1 && page_has_text(pdf_page_texts(*doc)[0]) && r is Ok ==> r
            == Ok::<bool, ExtractionError>(false),
{
    let n = pdf_page_count(doc);
    let sample: usize = if n < 3 {
        n
    } else {
        3
    };
    let mut p: usize = 1;
    while p <= sample
        invariant
            sample == sample_count(*doc),
            sample <= pdf_page_texts(*doc).len(),
            1 <= p,
            p <= sample + 1,
            forall|j: int| 0 <= j < p - 1 ==> !page_has_text(#[trigger] pdf_page_texts(*doc)[j]),
        decreases sample + 1 - p,
    {
        match pdf_extract_page(doc, p as u32) {
            Ok(t) => {
                if count_non_space_exec(t.as_str()) > 10 {
                    return Ok(false);
                }
            },
            Err(m) => {
                return Err(ExtractionError::PageExtractionError { page: p as u32, detail: m });
            },
        }
        p += 1;
    }
    Ok(true)
}

/// The two extraction strategies for a PDF.
#[derive(Clone, Copy, PartialEq, Eq, Structural, Debug)]
pub enum PdfPlan {
    /// The document has an embedded text layer: run the text tool on it.
    Searchable,
    /// The document is image-only: rasterize and OCR every page in order.
    Scanned,
}

/// Entry point of hybrid PDF extraction: classifies the document and
/// selects the strategy that the rest of the pipeline runs, direct text
/// extraction for searchable documents, page-by-page OCR for scanned ones.
pub fn extract_text_from_pdf(doc: &lopdf::Document) -> (r: Result<PdfPlan, ExtractionError>)
    ensures
        r == Ok::<PdfPlan, ExtractionError>(PdfPlan::Scanned) ==> forall|j: int|
            0 <= j < sample_count(*doc) ==> !page_has_text(#[trigger] pdf_page_texts(*doc)[j]),
        r == Ok::<PdfPlan, ExtractionError>(PdfPlan::Searchable) ==> exists|j: int|
            0 <= j < sample_count(*doc) && page_has_text(#[trigger] pdf_page_texts(*doc)[j])
                && (forall|j2: int| 0 <= j2 < j ==> !page_has_text(
                #[trigger] pdf_page_texts(*doc)[j2])),
        r matches Err(e) ==> (e matches ExtractionError::PageExtractionError { page, .. } && 1
            <= page && page as nat <= sample_count(*doc)),
        sample_count(*doc) >= 1 && page_has_text(pdf_page_texts(*doc)[0]) ==> (r == Ok::<
            PdfPlan,
            ExtractionError,
        >(PdfPlan::Searchable) || (r matches Err(ExtractionError::PageExtractionError {
            page,
            ..
        }) && page == 1)),
        (forall|j: int|
            0 <= j < sample_count(*doc) ==> !page_has_text(#[trigger] pdf_page_texts(*doc)[j]))
            && r is Ok ==> r == Ok::<PdfPlan, ExtractionError>(PdfPlan::Scanned),
        sample_count(*doc) >= 1 && page_has_text(pdf_page_texts(*doc)[0]) && r is Ok ==> r
            == Ok::<PdfPlan, ExtractionError>(PdfPlan::Searchable),
{
    match is_scanned_pdf(doc) {
        Ok(true) => Ok(PdfPlan::Scanned),
        Ok(false) => Ok(PdfPlan::Searchable),
        Err(e) => Err(e),
    }
}

/// Cleans text pulled from a PDF: trims every line, drops the empty ones,
/// and joins the rest with single newlines.
pub fn clean_pdf_text(text: &str) -> (r: String)
    ensures
        r@ == clean_spec(text@),
{
    clean_lines(text)
}

/// Turns the text tool's run over a searchable PDF into cleaned text.
/// Extracted text is non-empty on success: a run whose cleaned output is
/// empty found no text.
pub fn searchable_text_from_run(path: &str, run: &ToolOutcome) -> (r: Result<
    String,
    ExtractionError,
>)
    ensures
        run is InputMissing ==> (r matches Err(ExtractionError::NotFound { path: p, pdf })
            && p@ == path@ && pdf),
        run is LaunchFailed ==> (r matches Err(ExtractionError::EngineUnavailable { tool })
            && tool == Tool::PdfToText),
        run matches ToolOutcome::Finished { success: false, code, stderr, .. } ==> (r matches Err(
            ExtractionError::EngineFailed { tool, code: c, stderr: e },
        ) && tool == Tool::PdfToText && c == code && e@ == stderr@),
        run matches ToolOutcome::Finished { success: true, stdout: None, .. } ==> (r matches Err(
            ExtractionError::DecodeError { tool },
        ) && tool == Tool::PdfToText),
        run matches ToolOutcome::Finished { success: true, stdout: Some(text), .. } ==> (
        if clean_spec(text@).len() == 0 {
            r matches Err(ExtractionError::NoTextFound)
        } else {
            r matches Ok(t) && t@ == clean_spec(text@)
        }),
{
    match run {
        ToolOutcome::InputMissing => Err(
            ExtractionError::NotFound { path: path.to_owned(), pdf: true },
        ),
        ToolOutcome::LaunchFailed => Err(
            ExtractionError::EngineUnavailable { tool: Tool::PdfToText },
        ),
        ToolOutcome::Finished { success, code, stdout, stderr } => {
            if !*success {
                Err(
                    ExtractionError::EngineFailed {
                        tool: Tool::PdfToText,
                        code: *code,
                        stderr: stderr.clone(),
                    },
                )
            } else {
                match stdout {
                    None => Err(ExtractionError::DecodeError { tool: Tool::PdfToText }),
                    Some(text) => {
                        let cleaned = clean_pdf_text(text.as_str());
                        if cleaned.as_str().is_empty() {
                            Err(ExtractionError::NoTextFound)
                        } else {
                            Ok(cleaned)
                        }
                    },
                }
            }
        },
    }
}

/// Judges the rasterizer's run over a scanned PDF; its pages are on disk
/// under the agreed prefix exactly when this returns success.
pub fn rasterize_check(path: &str, run: &ToolOutcome) -> (r: Result<(), ExtractionError>)
    ensures
        run is InputMissing ==> (r matches Err(ExtractionError::NotFound { path: p, pdf })
            && p@ == path@ && pdf),
        run is LaunchFailed ==> (r matches Err(ExtractionError::EngineUnavailable { tool })
            && tool == Tool::PdfToPpm),
        run matches ToolOutcome::Finished { success: false, code, stderr, .. } ==> (r matches Err(
            ExtractionError::EngineFailed { tool, code: c, stderr: e },
        ) && tool == Tool::PdfToPpm && c == code && e@ == stderr@),
        run matches ToolOutcome::Finished { success: true, .. } ==> r is Ok,
{
    match run {
        ToolOutcome::InputMissing => Err(
            ExtractionError::NotFound { path: path.to_owned(), pdf: true },
        ),
        ToolOutcome::LaunchFailed => Err(
            ExtractionError::EngineUnavailable { tool: Tool::PdfToPpm },
        ),
        ToolOutcome::Finished { success, code, stderr, .. } => {
            if !*success {
                Err(
                    ExtractionError::EngineFailed {
                        tool: Tool::PdfToPpm,
                        code: *code,
                        stderr: stderr.clone(),
                    },
                )
            } else {
                Ok(())
            }
        },
    }
}

/// One OCR run came back usable: the engine succeeded, its output decoded,
/// and cleaning left text.
pub open spec fn ocr_good(run: ToolOutcome) -> bool {
    run matches ToolOutcome::Finished { success: true, stdout: Some(t), .. } && clean_spec(t@).len()
        > 0
}

/// The cleaned text of one OCR run (meaningful when the run was good).
pub open spec fn ocr_text(run: ToolOutcome) -> Seq<char> {
    match run {
        ToolOutcome::Finished { stdout: Some(t), .. } => clean_spec(t@),
        _ => Seq::empty(),
    }
}

/// The views of a sequence of strings.
pub open spec fn views(ts: Seq<String>) -> Seq<Seq<char>> {
    ts.map_values(|s: String| s@)
}

/// The page texts concatenated in order, a blank line between pages.
pub open spec fn join_pages(ts: Seq<Seq<char>>) -> Seq<char>
    decreases ts.len(),
{
    if ts.len() == 0 {
        Seq::empty()
    } else if ts.len() == 1 {
        ts[0]
    } else {
        join_pages(ts.drop_last()) + seq!['\n', '\n'] + ts.last()
    }
}

fn join_texts(ts: &Vec<String>) -> (r: String)
    ensures
        r@ == join_pages(views(ts@)),
{
    let mut out = String::new();
    let mut k: usize = 0;
    let n = ts.len();
    while k < n
        invariant
            n == ts@.len(),
            k <= n,
            out@ == join_pages(views(ts@).take(k as int)),
        decreases n - k,
    {
        if k > 0 {
            out.append("\n\n");
        }
        out.append(ts[k].as_str());
        proof {
            reveal_strlit("\n\n");
            assert("\n\n"@ =~= seq!['\n', '\n']);
            let vs = views(ts@);
            assert(vs.take(k + 1 as int).drop_last() =~= vs.take(k as int));
            assert(vs.take(k + 1 as int).last() == vs[k as int]);
            if k == 0 {
                assert(out@ =~= vs[0]);
            } else {
                assert(out@ =~= join_pages(vs.take(k as int)) + seq!['\n', '\n'] + vs[k as int]);
            }
        }
        k += 1;
    }
    proof {
        assert(views(ts@).take(n as int) =~= views(ts@));
    }
    out
}

/// What one consumed page leaves behind: the image to delete now, and on
/// the last page or on a failure the whole run's outcome.
pub enum PageStep {
    /// This page's text was taken; delete its image and OCR the next one.
    Advanced { delete: String },
    /// The last page's text was taken: delete its image; `text` is the
    /// whole document's text, pages joined by blank lines.
    Finished { delete: String, text: String },
    /// OCR failed on this page: the whole extraction aborts, and this
    /// page's image and every remaining one must be deleted.
    Aborted { deletes: Vec<String>, error: ExtractionError },
}

/// The page-by-page OCR of a rasterized, scanned PDF: pages are consumed
/// strictly in order, each page image is handed out for deletion exactly
/// once, and a single page failure aborts the whole run with the
/// remaining images listed for deletion.
pub struct PageOcrRun {
    /// The page image paths, in page order.
    pub images: Vec<String>,
    /// How many pages have been consumed.
    pub next: usize,
    /// The cleaned text of each consumed page.
    pub texts: Vec<String>,
    /// A page failed and the run is over.
    pub aborted: bool,
}

impl PageOcrRun {
    /// The run's bookkeeping is consistent.
    pub open spec fn wf(self) -> bool {
        self.next <= self.images@.len() && (self.aborted || self.texts@.len() == self.next)
    }

    /// Begins a run over the given page images, in the order given.
    pub fn start(images: Vec<String>) -> (r: PageOcrRun)
        ensures
            r.wf(),
            r.images == images,
            r.next == 0,
            r.texts@.len() == 0,
            !r.aborted,
    {
        PageOcrRun { images, next: 0, texts: Vec::new(), aborted: false }
    }

    /// The image to OCR now, or nothing when the run is over.
    pub fn next_image(&self) -> (r: Option<String>)
        requires
            self.wf(),
        ensures
            r is Some <==> (!self.aborted && self.next < self.images@.len()),
            r matches Some(p) ==> p@ == self.images@[self.next as int]@,
    {
        if !self.aborted && self.next < self.images.len() {
            Some(self.images[self.next].clone())
        } else {
            None
        }
    }

    /// Consumes the current page's OCR outcome. On success the page's
    /// cleaned text is kept and its image alone is handed out for
    /// deletion; on failure the run aborts and this page's image together
    /// with every remaining one is handed out for deletion.
    pub fn page_done(&mut self, run: &ToolOutcome) -> (r: PageStep)
        requires
            old(self).wf(),
            !old(self).aborted,
            old(self).next < old(self).images@.len(),
        ensures
            final(self).wf(),
            final(self).images == old(self).images,
            ocr_good(*run) ==> final(self).next == old(self).next + 1 && !final(self).aborted
                && views(final(self).texts@) == views(old(self).texts@).push(ocr_text(*run)),
            ocr_good(*run) && old(self).next + 1 < old(self).images@.len() ==> (r matches PageStep::Advanced {
                delete,
            } && delete@ == old(self).images@[old(self).next as int]@),
            ocr_good(*run) && old(self).next + 1 == old(self).images@.len() ==> (r matches PageStep::Finished {
                delete,
                text,
            } && delete@ == old(self).images@[old(self).next as int]@ && text@ == join_pages(
                views(old(self).texts@).push(ocr_text(*run)),
            )),
            !ocr_good(*run) ==> (r matches PageStep::Aborted { deletes, error }
                && final(self).aborted
                && deletes@.len() == old(self).images@.len() - old(self).next
                && (forall|j: int|
                    0 <= j < deletes@.len() ==> (#[trigger] deletes@[j])@
                        == old(self).images@[old(self).next + j]@) && (run is InputMissing ==> error matches ExtractionError::NotFound {
                ..
            }) && (run is LaunchFailed ==> (error matches ExtractionError::EngineUnavailable {
                tool,
            } && tool == Tool::Tesseract)) && (run matches ToolOutcome::Finished {
                success: false,
                code,
                stderr,
                ..
            } ==> (error matches ExtractionError::EngineFailed { tool, code: c, stderr: e } && tool
                == Tool::Tesseract && c == code && e@ == stderr@)) && (run matches ToolOutcome::Finished {
                success: true,
                stdout: None,
                ..
            } ==> (error matches ExtractionError::DecodeError { tool } && tool == Tool::Tesseract))
                && (run matches ToolOutcome::Finished { success: true, stdout: Some(t), .. }
                && clean_spec(t@).len() == 0 ==> error is NoTextFound)),
    {
        let total = self.images.len();
        let path = self.images[self.next].clone();
        let res = extract_text_from_image(path.as_str(), run);
        match res {
            Ok(t) => {
                proof {
                    assert(views(self.texts@.push(t)) =~= views(self.texts@).push(t@));
                }
                self.texts.push(t);
                assert(self.next < total);
                self.next = self.next + 1;
                if self.next < total {
                    PageStep::Advanced { delete: path }
                } else {
                    let text = join_texts(&self.texts);
                    proof {
                        assert(views(self.texts@).drop_last() =~= views(old(self).texts@));
                    }
                    PageStep::Finished { delete: path, text }
                }
            },
            Err(e) => {
                self.aborted = true;
                let mut delete: Vec<String> = Vec::new();
                let mut k: usize = self.next;
                while k < self.images.len()
                    invariant
                        old(self).next <= k <= self.images@.len(),
                        self.aborted,
                        self.images == old(self).images,
                        self.next == old(self).next,
                        self.texts == old(self).texts,
                        delete@.len() == k - old(self).next,
                        forall|j: int|
                            0 <= j < delete@.len() ==> (#[trigger] delete@[j])@
                                == self.images@[old(self).next + j]@,
                    decreases self.images@.len() - k,
                {
                    delete.push(self.images[k].clone());
                    k += 1;
                }
                PageStep::Aborted { deletes: delete, error: e }
            },
        }
    }
}

} // verus!
