//! The analysis pipeline's state machine. One request walks the stages
//! Received, Downloading, Extracting, AwaitingAnalysis, Delivering, Done,
//! with Failed absorbing every error. Each transition returns the actions
//! the surrounding process must carry out (messages, downloads, tool runs,
//! deletions); every scratch artifact the request created is handed out
//! for deletion on every path into a terminal stage.

use vstd::prelude::*;
use vstd::string::*;
use crate::errors::ExtractionError;
use crate::markdown::{normalize_spec, normalize_text};

verus! {

/// The largest accepted input, in bytes: ten mebibytes.
pub const MAX_FILE_SIZE: u64 = 10 * 1024 * 1024;

/// The longest analysis result delivered inline, in characters; longer
/// results travel as an attached report file.
pub const INLINE_LIMIT: usize = 4000;

/// Where a request stands.
#[derive(Clone, Copy, PartialEq, Eq, Structural, Debug)]
pub enum Stage {
    Received,
    Downloading,
    Extracting,
    AwaitingAnalysis,
    Delivering,
    Done,
    Failed,
}

/// What kind of platform attachment arrived.
#[derive(Clone, Copy, PartialEq, Eq, Structural, Debug)]
pub enum FileKind {
    Photo,
    Document,
}

/// What the surrounding process reports back to the machine.
pub enum Event {
    /// A file arrived: its platform identifier, declared extension, and
    /// size in bytes. Any file over the size limit is rejected, whatever
    /// its kind.
    Submitted { kind: FileKind, file_id: String, extension: String, size: u64 },
    /// The scratch file could not even be created.
    ScratchFailed,
    /// The platform file's content is in the scratch file.
    Downloaded,
    /// Creating succeeded but streaming the content failed.
    DownloadFailed { detail: String },
    /// Extraction produced this text.
    Extracted { text: String },
    /// Extraction failed.
    ExtractFailed { error: ExtractionError },
    /// The AI collaborator returned this completion.
    Analyzed { text: String },
    /// The AI collaborator call failed.
    AnalysisFailed { detail: String },
    /// The report file was written.
    ReportSaved,
    /// The report file could not be written.
    ReportSaveFailed,
    /// The attached report was delivered.
    Delivered,
    /// Sending the attached report failed.
    DeliverFailed { detail: String },
}

/// What the surrounding process must do after a transition, in order.
pub enum Action {
    /// Send a plain message to the user.
    SendMessage { text: String },
    /// Show the progress indicator with this text.
    ShowProgress { text: String },
    /// Replace the progress indicator's text.
    EditProgress { text: String },
    /// Remove the progress indicator (errors are cosmetic, suppressed).
    RemoveProgress,
    /// Create the scratch file at `path` and stream the platform file
    /// into it.
    CreateAndDownload { path: String },
    /// Run the extraction dispatcher on the scratch file.
    RunExtraction { path: String, extension: String },
    /// Send the extracted text to the AI collaborator.
    RunAnalysis { text: String },
    /// Write `content` to the report file at `path`.
    SaveReport { path: String, content: String },
    /// Send the report file as an attachment with this caption.
    SendDocument { path: String, caption: String },
    /// Best-effort deletion of a scratch artifact (errors suppressed).
    DeleteFile { path: String },
}

/// The scratch path for a downloaded file.
pub open spec fn scratch_path_spec(temp_dir: Seq<char>, file_id: Seq<char>, ext: Seq<char>)
    -> Seq<char> {
    temp_dir + "/"@ + file_id + "."@ + ext
}

/// The path of the generated report file.
pub open spec fn report_path_spec(temp_dir: Seq<char>, file_id: Seq<char>) -> Seq<char> {
    temp_dir + "/analyse_"@ + file_id + ".md"@
}

/// The actions `acts[k..]` delete exactly the artifacts `arts`, in order.
pub open spec fn cleanup_tail(arts: Seq<String>, acts: Seq<Action>, k: int) -> bool {
    &&& acts.len() == k + arts.len()
    &&& forall|j: int|
        0 <= j < arts.len() ==> (#[trigger] acts[k + j] matches Action::DeleteFile { path }
            && path@ == arts[j]@)
}

/// Some action in `acts` deletes the artifact at path `p`.
pub open spec fn contains_delete(acts: Seq<Action>, p: Seq<char>) -> bool {
    exists|i: int|
        0 <= i < acts.len() && (#[trigger] acts[i] matches Action::DeleteFile { path } && path@
            == p)
}

/// The events that end a request in failure.
pub open spec fn is_failure_event(e: Event) -> bool {
    ||| e is ScratchFailed
    ||| e is DownloadFailed
    ||| e is ExtractFailed
    ||| e is AnalysisFailed
    ||| e is ReportSaveFailed
    ||| e is DeliverFailed
}

/// One request's pipeline.
pub struct Orchestrator {
    /// Where the request stands.
    pub stage: Stage,
    /// Scratch paths this request created and has not yet handed out for
    /// deletion.
    pub artifacts: Vec<String>,
    /// The downloaded file's scratch path (valid from Downloading on).
    pub local_path: String,
    /// The generated report's path (valid once a report is planned).
    pub report_path: String,
    /// The platform file identifier.
    pub file_id: String,
    /// The declared file extension.
    pub extension: String,
    /// The scratch directory all paths live under.
    pub temp_dir: String,
    /// The report file was written and awaits delivery.
    pub report_saved: bool,
}

impl Orchestrator {
    /// The artifact list agrees with the stage: nothing before a download
    /// or after a terminal stage, the downloaded file in between, and the
    /// report beside it once written.
    pub open spec fn wf(self) -> bool {
        match self.stage {
            Stage::Received => self.artifacts@.len() == 0 && !self.report_saved,
            Stage::Downloading | Stage::Extracting | Stage::AwaitingAnalysis => self.artifacts@.len()
                == 1 && self.artifacts@[0]@ == self.local_path@ && !self.report_saved,
            Stage::Delivering => if self.report_saved {
                self.artifacts@.len() == 2 && self.artifacts@[0]@ == self.local_path@
                    && self.artifacts@[1]@ == self.report_path@
            } else {
                self.artifacts@.len() == 1 && self.artifacts@[0]@ == self.local_path@
            },
            Stage::Done | Stage::Failed => self.artifacts@.len() == 0,
        }
    }

    /// Which events the machine accepts where it stands.
    pub open spec fn expects(self, e: Event) -> bool {
        match self.stage {
            Stage::Received => e is Submitted,
            Stage::Downloading => e is ScratchFailed || e is Downloaded || e is DownloadFailed,
            Stage::Extracting => e is Extracted || e is ExtractFailed,
            Stage::AwaitingAnalysis => e is Analyzed || e is AnalysisFailed,
            Stage::Delivering => if self.report_saved {
                e is Delivered || e is DeliverFailed
            } else {
                e is ReportSaved || e is ReportSaveFailed
            },
            Stage::Done | Stage::Failed => false,
        }
    }

    /// A failing transition: the stage falls to Failed, the progress
    /// indicator is replaced by the message, and every artifact is handed
    /// out for deletion.
    pub open spec fn failure_shape(pre: Orchestrator, post: Orchestrator, acts: Seq<Action>,
        msg: Seq<char>) -> bool {
        &&& post.stage is Failed
        &&& post.artifacts@.len() == 0
        &&& acts.len() == 2 + pre.artifacts@.len()
        &&& acts[0] is RemoveProgress
        &&& (acts[1] matches Action::SendMessage { text } && text@ == msg)
        &&& cleanup_tail(pre.artifacts@, acts, 2)
    }

    /// The request's configuration survives every transition.
    pub open spec fn config_kept(pre: Orchestrator, post: Orchestrator) -> bool {
        &&& post.temp_dir@ == pre.temp_dir@
    }

    /// The full transition relation: what each accepted (stage, event)
    /// pair does to the state and which actions it returns.
    pub open spec fn step_post(pre: Orchestrator, post: Orchestrator, e: Event,
        acts: Seq<Action>) -> bool {
        match (pre.stage, e) {
            (Stage::Received, Event::Submitted { kind: _, file_id, extension, size }) => {
                if size > MAX_FILE_SIZE {
                    // rejected before any scratch artifact exists
                    &&& post.stage is Failed
                    &&& post.artifacts@.len() == 0
                    &&& acts.len() == 1
                    &&& (acts[0] matches Action::SendMessage { text } && text@
                        == "⚠️ Le fichier est trop volumineux (max 10MB)."@)
                } else {
                    &&& post.stage is Downloading
                    &&& post.file_id@ == file_id@
                    &&& post.extension@ == extension@
                    &&& post.local_path@ == scratch_path_spec(pre.temp_dir@, file_id@, extension@)
                    &&& post.artifacts@.len() == 1
                    &&& post.artifacts@[0]@ == post.local_path@
                    &&& acts.len() == 2
                    &&& (acts[0] matches Action::ShowProgress { text } && text@
                        == "📄 Analyse en cours... Je lis votre document."@)
                    &&& (acts[1] matches Action::CreateAndDownload { path } && path@
                        == post.local_path@)
                }
            },
            (Stage::Downloading, Event::ScratchFailed) => Self::failure_shape(pre, post, acts,
                "❌ Erreur interne : impossible de préparer le fichier."@),
            (Stage::Downloading, Event::DownloadFailed { detail }) => Self::failure_shape(pre,
                post, acts, "❌ Erreur de téléchargement : "@ + detail@),
            (Stage::Downloading, Event::Downloaded) => {
                &&& post.stage is Extracting
                &&& post.artifacts@ == pre.artifacts@
                &&& post.local_path@ == pre.local_path@
                &&& acts.len() == 1
                &&& (acts[0] matches Action::RunExtraction { path, extension } && path@
                    == pre.local_path@ && extension@ == pre.extension@)
            },
            (Stage::Extracting, Event::ExtractFailed { error }) => Self::failure_shape(pre, post,
                acts, "❌ Erreur d'extraction : "@ + error.message_spec()),
            (Stage::Extracting, Event::Extracted { text }) => {
                &&& post.stage is AwaitingAnalysis
                &&& post.artifacts@ == pre.artifacts@
                &&& post.local_path@ == pre.local_path@
                &&& acts.len() == 2
                &&& (acts[0] matches Action::EditProgress { text: t } && t@
                    == "🧠 Réflexion en cours... L'IA analyse le contenu."@)
                &&& (acts[1] matches Action::RunAnalysis { text: t } && t@ == text@)
            },
            (Stage::AwaitingAnalysis, Event::AnalysisFailed { detail }) => Self::failure_shape(
                pre, post, acts, "❌ Erreur d'analyse IA : "@ + detail@),
            (Stage::AwaitingAnalysis, Event::Analyzed { text }) => {
                let norm = normalize_spec(text@);
                if norm.len() == 0 {
                    &&& post.stage is Done
                    &&& post.artifacts@.len() == 0
                    &&& (acts[0] matches Action::SendMessage { text: m } && m@
                        == "⚠️ L'IA n'a retourné aucun contenu."@)
                    &&& acts[1] is RemoveProgress
                    &&& cleanup_tail(pre.artifacts@, acts, 2)
                } else if norm.len() <= INLINE_LIMIT {
                    &&& post.stage is Done
                    &&& post.artifacts@.len() == 0
                    &&& (acts[0] matches Action::SendMessage { text: m } && m@ == norm)
                    &&& acts[1] is RemoveProgress
                    &&& cleanup_tail(pre.artifacts@, acts, 2)
                } else {
                    &&& post.stage is Delivering
                    &&& !post.report_saved
                    &&& post.artifacts@ == pre.artifacts@
                    &&& post.local_path@ == pre.local_path@
                    &&& post.report_path@ == report_path_spec(pre.temp_dir@, pre.file_id@)
                    &&& acts.len() == 1
                    &&& (acts[0] matches Action::SaveReport { path, content } && path@
                        == post.report_path@ && content@ == norm)
                }
            },
            (Stage::Delivering, Event::ReportSaveFailed) => Self::failure_shape(pre, post, acts,
                "❌ Erreur : impossible de générer le fichier de rapport."@),
            (Stage::Delivering, Event::ReportSaved) => {
                &&& post.stage is Delivering
                &&& post.report_saved
                &&& post.local_path@ == pre.local_path@
                &&& post.report_path@ == pre.report_path@
                &&& post.artifacts@.len() == 2
                &&& post.artifacts@[0]@ == pre.artifacts@[0]@
                &&& post.artifacts@[1]@ == pre.report_path@
                &&& acts.len() == 1
                &&& (acts[0] matches Action::SendDocument { path, caption } && path@
                    == pre.report_path@ && caption@
                    == "✅ Analyse terminée ! Le rapport était trop long pour un message direct."@)
            },
            (Stage::Delivering, Event::Delivered) => {
                &&& post.stage is Done
                &&& post.artifacts@.len() == 0
                &&& acts[0] is RemoveProgress
                &&& cleanup_tail(pre.artifacts@, acts, 1)
            },
            (Stage::Delivering, Event::DeliverFailed { detail }) => Self::failure_shape(pre, post,
                acts, "❌ Erreur d'envoi du rapport : "@ + detail@),
            _ => false,
        }
    }

    /// A fresh pipeline over the given scratch directory.
    pub fn new(temp_dir: String) -> (r: Orchestrator)
        ensures
            r.wf(),
            r.stage is Received,
            r.temp_dir@ == temp_dir@,
            r.artifacts@.len() == 0,
    {
        Orchestrator {
            stage: Stage::Received,
            artifacts: Vec::new(),
            local_path: String::new(),
            report_path: String::new(),
            file_id: String::new(),
            extension: String::new(),
            temp_dir,
            report_saved: false,
        }
    }

    /// Hands every artifact out for deletion, appending to `acts`.
    fn cleanup_into(&mut self, acts: &mut Vec<Action>)
        ensures
            final(self).artifacts@.len() == 0,
            final(self).stage == old(self).stage,
            final(self).local_path == old(self).local_path,
            final(self).report_path == old(self).report_path,
            final(self).file_id == old(self).file_id,
            final(self).extension == old(self).extension,
            final(self).temp_dir == old(self).temp_dir,
            final(self).report_saved == old(self).report_saved,
            final(acts)@.len() == old(acts)@.len() + old(self).artifacts@.len(),
            forall|i: int| 0 <= i < old(acts)@.len() ==> final(acts)@[i] == old(acts)@[i],
            cleanup_tail(old(self).artifacts@, final(acts)@, old(acts)@.len() as int),
    {
        let n = self.artifacts.len();
        let base = acts.len();
        let mut k: usize = 0;
        while k < n
            invariant
                n == self.artifacts@.len(),
                base == old(acts)@.len(),
                k <= n,
                self.artifacts == old(self).artifacts,
                self.stage == old(self).stage,
                self.local_path == old(self).local_path,
                self.report_path == old(self).report_path,
                self.file_id == old(self).file_id,
                self.extension == old(self).extension,
                self.temp_dir == old(self).temp_dir,
                self.report_saved == old(self).report_saved,
                acts@.len() == base + k,
                forall|i: int| 0 <= i < base ==> acts@[i] == old(acts)@[i],
                forall|j: int|
                    0 <= j < k ==> (#[trigger] acts@[base + j] matches Action::DeleteFile { path }
                        && path@ == self.artifacts@[j]@),
            decreases n - k,
        {
            acts.push(Action::DeleteFile { path: self.artifacts[k].clone() });
            k += 1;
        }
        self.artifacts = Vec::new();
    }

    /// A failing transition: progress removed, the message sent, every
    /// artifact handed out for deletion, the stage fallen to Failed.
    fn fail_with(&mut self, msg: String) -> (r: Vec<Action>)
        ensures
            Self::failure_shape(*old(self), *final(self), r@, msg@),
            Self::config_kept(*old(self), *final(self)),
            final(self).wf(),
    {
        let mut acts: Vec<Action> = Vec::new();
        acts.push(Action::RemoveProgress);
        acts.push(Action::SendMessage { text: msg });
        self.cleanup_into(&mut acts);
        self.stage = Stage::Failed;
        acts
    }

    /// Feeds one event to the machine and returns the actions to carry
    /// out, in order. Terminal stages hold no artifacts: whatever the
    /// request created has been handed out for deletion by then.
    pub fn step(&mut self, e: Event) -> (r: Vec<Action>)
        requires
            old(self).wf(),
            old(self).expects(e),
        ensures
            final(self).wf(),
            Self::config_kept(*old(self), *final(self)),
            Self::step_post(*old(self), *final(self), e, r@),
            final(self).stage is Done || final(self).stage is Failed
                ==> final(self).artifacts@.len() == 0,
    {
        match e {
            Event::Submitted { kind: _, file_id, extension, size } => {
                if size > MAX_FILE_SIZE {
                    self.stage = Stage::Failed;
                    let mut acts: Vec<Action> = Vec::new();
                    acts.push(
                        Action::SendMessage {
                            text: String::from_str("⚠️ Le fichier est trop volumineux (max 10MB)."),
                        },
                    );
                    acts
                } else {
                    let mut path = self.temp_dir.clone();
                    path.append("/");
                    path.append(file_id.as_str());
                    path.append(".");
                    path.append(extension.as_str());
                    self.local_path = path.clone();
                    self.file_id = file_id;
                    self.extension = extension;
                    self.artifacts = Vec::new();
                    self.artifacts.push(path.clone());
                    self.stage = Stage::Downloading;
                    let mut acts: Vec<Action> = Vec::new();
                    acts.push(
                        Action::ShowProgress {
                            text: String::from_str("📄 Analyse en cours... Je lis votre document."),
                        },
                    );
                    acts.push(Action::CreateAndDownload { path });
                    acts
                }
            },
            Event::ScratchFailed => {
                self.fail_with(String::from_str("❌ Erreur interne : impossible de préparer le fichier."))
            },
            Event::DownloadFailed { detail } => {
                let mut msg = String::from_str("❌ Erreur de téléchargement : ");
                msg.append(detail.as_str());
                self.fail_with(msg)
            },
            Event::Downloaded => {
                self.stage = Stage::Extracting;
                let mut acts: Vec<Action> = Vec::new();
                acts.push(
                    Action::RunExtraction {
                        path: self.local_path.clone(),
                        extension: self.extension.clone(),
                    },
                );
                acts
            },
            Event::ExtractFailed { error } => {
                let mut msg = String::from_str("❌ Erreur d'extraction : ");
                let detail = error.message();
                msg.append(detail.as_str());
                self.fail_with(msg)
            },
            Event::Extracted { text } => {
                self.stage = Stage::AwaitingAnalysis;
                let mut acts: Vec<Action> = Vec::new();
                acts.push(
                    Action::EditProgress {
                        text: String::from_str("🧠 Réflexion en cours... L'IA analyse le contenu."),
                    },
                );
                acts.push(Action::RunAnalysis { text });
                acts
            },
            Event::AnalysisFailed { detail } => {
                let mut msg = String::from_str("❌ Erreur d'analyse IA : ");
                msg.append(detail.as_str());
                self.fail_with(msg)
            },
            Event::Analyzed { text } => {
                let norm = normalize_text(text.as_str());
                let len = norm.as_str().unicode_len();
                if len == 0 {
                    let mut acts: Vec<Action> = Vec::new();
                    acts.push(
                        Action::SendMessage {
                            text: String::from_str("⚠️ L'IA n'a retourné aucun contenu."),
                        },
                    );
                    acts.push(Action::RemoveProgress);
                    self.cleanup_into(&mut acts);
                    self.stage = Stage::Done;
                    acts
                } else if len <= INLINE_LIMIT {
                    let mut acts: Vec<Action> = Vec::new();
                    acts.push(Action::SendMessage { text: norm });
                    acts.push(Action::RemoveProgress);
                    self.cleanup_into(&mut acts);
                    self.stage = Stage::Done;
                    acts
                } else {
                    let mut path = self.temp_dir.clone();
                    path.append("/analyse_");
                    path.append(self.file_id.as_str());
                    path.append(".md");
                    self.report_path = path.clone();
                    self.stage = Stage::Delivering;
                    let mut acts: Vec<Action> = Vec::new();
                    acts.push(Action::SaveReport { path, content: norm });
                    acts
                }
            },
            Event::ReportSaveFailed => {
                self.fail_with(
                    String::from_str("❌ Erreur : impossible de générer le fichier de rapport."),
                )
            },
            Event::ReportSaved => {
                self.report_saved = true;
                self.artifacts.push(self.report_path.clone());
                let mut acts: Vec<Action> = Vec::new();
                acts.push(
                    Action::SendDocument {
                        path: self.report_path.clone(),
                        caption: String::from_str(
                            "✅ Analyse terminée ! Le rapport était trop long pour un message direct.",
                        ),
                    },
                );
                acts
            },
            Event::Delivered => {
                let mut acts: Vec<Action> = Vec::new();
                acts.push(Action::RemoveProgress);
                self.cleanup_into(&mut acts);
                self.stage = Stage::Done;
                acts
            },
            Event::DeliverFailed { detail } => {
                let mut msg = String::from_str("❌ Erreur d'envoi du rapport : ");
                msg.append(detail.as_str());
                self.fail_with(msg)
            },
        }
    }
}

/// The cleanup invariant: a failure in Downloading, Extracting or
/// AwaitingAnalysis leaves the request Failed with no artifact standing,
/// and the returned actions delete every artifact the request had.
pub proof fn lemma_cleanup_on_failure(pre: Orchestrator, post: Orchestrator, e: Event,
    acts: Seq<Action>)
    requires
        pre.wf(),
        pre.stage is Downloading || pre.stage is Extracting || pre.stage is AwaitingAnalysis,
        pre.expects(e),
        is_failure_event(e),
        Orchestrator::step_post(pre, post, e, acts),
    ensures
        post.stage is Failed,
        post.artifacts@.len() == 0,
        forall|j: int|
            0 <= j < pre.artifacts@.len() ==> contains_delete(acts, (#[trigger] pre.artifacts@[j])@),
{
    assert forall|j: int|
        0 <= j < pre.artifacts@.len() implies contains_delete(
        acts,
        (#[trigger] pre.artifacts@[j])@,
    ) by {
        assert(acts[2 + j] matches Action::DeleteFile { path } && path@ == pre.artifacts@[j]@);
    }
}

} // verus!
