//! The AI collaborator's interface, seen from the pipeline: the fixed
//! request shape handed to the transport, and the judgment of whatever
//! came back. The HTTP transport itself lives outside; it reports one of
//! the reply shapes below and this module decides the outcome.

use vstd::prelude::*;
use vstd::string::*;
use crate::text::{dec_spec, dec_u64};

verus! {

/// One chat turn of the analysis request.
pub struct ChatMessage {
    /// Who speaks: `system` or `user`.
    pub role: String,
    /// What is said.
    pub content: String,
}

/// The fixed system instruction: restructure the text as clean Markdown
/// and work through any exercise it holds.
pub open spec fn system_prompt_spec() -> Seq<char> {
    "Tu es un professeur expérimenté. Analyse ce texte, convertis-le en Markdown clair, et si c'est un exercice, fournis une solution détaillée."@
}

/// The two turns of an analysis request: the fixed system instruction,
/// then the extracted text as the user turn.
pub fn chat_messages(text: &str) -> (r: Vec<ChatMessage>)
    ensures
        r@.len() == 2,
        r@[0].role@ == "system"@,
        r@[0].content@ == system_prompt_spec(),
        r@[1].role@ == "user"@,
        r@[1].content@ == text@,
{
    let mut r: Vec<ChatMessage> = Vec::new();
    r.push(
        ChatMessage {
            role: String::from_str("system"),
            content: String::from_str(
                "Tu es un professeur expérimenté. Analyse ce texte, convertis-le en Markdown clair, et si c'est un exercice, fournis une solution détaillée.",
            ),
        },
    );
    r.push(ChatMessage { role: String::from_str("user"), content: text.to_owned() });
    r
}

/// Why the analysis step failed.
#[derive(Debug)]
pub enum AnalysisError {
    /// The request never got an answer (network, timeout).
    RequestFailed { detail: String },
    /// The collaborator answered with a non-success status.
    Http { status: u16, body: String },
    /// The success body was not the expected JSON shape.
    MalformedResponse,
    /// The choice list came back empty.
    EmptyResponse,
}

impl AnalysisError {
    /// The user-visible explanation of this failure.
    pub open spec fn message_spec(self) -> Seq<char> {
        match self {
            AnalysisError::RequestFailed { detail } => "Échec de l'envoi de la requête à OpenAI : "@
                + detail@,
            AnalysisError::Http { status, body } => "Erreur API OpenAI ("@ + dec_spec(
                status as nat,
            ) + "): "@ + body@,
            AnalysisError::MalformedResponse => "Échec du parsing de la réponse JSON d'OpenAI"@,
            AnalysisError::EmptyResponse => "Aucune réponse reçue d'OpenAI"@,
        }
    }

    /// Builds the user-visible message.
    pub fn message(&self) -> (r: String)
        ensures
            r@ == self.message_spec(),
    {
        match self {
            AnalysisError::RequestFailed { detail } => {
                let mut r = String::from_str("Échec de l'envoi de la requête à OpenAI : ");
                r.append(detail.as_str());
                r
            },
            AnalysisError::Http { status, body } => {
                let mut r = String::from_str("Erreur API OpenAI (");
                let s = dec_u64(*status as u64);
                r.append(s.as_str());
                r.append("): ");
                r.append(body.as_str());
                r
            },
            AnalysisError::MalformedResponse => String::from_str(
                "Échec du parsing de la réponse JSON d'OpenAI",
            ),
            AnalysisError::EmptyResponse => String::from_str("Aucune réponse reçue d'OpenAI"),
        }
    }
}

/// What the transport reports back from one analysis request.
pub enum AiReply {
    /// Sending failed or timed out; nothing came back.
    TransportFailed { detail: String },
    /// A response with a non-success status and this body.
    HttpError { status: u16, body: String },
    /// A success response whose body did not parse as the expected shape.
    MalformedBody,
    /// A parsed success response: each choice's message content, in order.
    Choices { contents: Vec<String> },
}

/// Judges one reply: the first choice's content on success, the matching
/// error otherwise — if and only if the reply parsed and held a choice.
pub fn analysis_from_reply(reply: AiReply) -> (r: Result<String, AnalysisError>)
    ensures
        reply matches AiReply::TransportFailed { detail } ==> (r matches Err(
            AnalysisError::RequestFailed { detail: d },
        ) && d@ == detail@),
        reply matches AiReply::HttpError { status, body } ==> (r matches Err(
            AnalysisError::Http { status: s, body: b },
        ) && s == status && b@ == body@),
        reply is MalformedBody ==> r matches Err(AnalysisError::MalformedResponse),
        reply matches AiReply::Choices { contents } ==> (if contents@.len() == 0 {
            r matches Err(AnalysisError::EmptyResponse)
        } else {
            r matches Ok(t) && t@ == contents@[0]@
        }),
{
    match reply {
        AiReply::TransportFailed { detail } => Err(AnalysisError::RequestFailed { detail }),
        AiReply::HttpError { status, body } => Err(AnalysisError::Http { status, body }),
        AiReply::MalformedBody => Err(AnalysisError::MalformedResponse),
        AiReply::Choices { contents } => {
            let mut contents = contents;
            if contents.len() == 0 {
                Err(AnalysisError::EmptyResponse)
            } else {
                Ok(contents.remove(0))
            }
        },
    }
}

} // verus!
