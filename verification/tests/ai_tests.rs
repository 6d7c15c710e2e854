use telegram_ai_analyzer::ai::{analysis_from_reply, chat_messages, AiReply, AnalysisError};

#[test]
fn request_holds_the_fixed_instruction_and_the_text() {
    let msgs = chat_messages("2+2=?");
    assert_eq!(msgs.len(), 2);
    assert_eq!(msgs[0].role, "system");
    assert!(msgs[0].content.starts_with("Tu es un professeur expérimenté."));
    assert_eq!(msgs[1].role, "user");
    assert_eq!(msgs[1].content, "2+2=?");
}

#[test]
fn first_choice_is_the_result() {
    let reply = AiReply::Choices {
        contents: vec!["première".to_string(), "seconde".to_string()],
    };
    assert_eq!(analysis_from_reply(reply).unwrap(), "première");
}

#[test]
fn empty_choice_list_is_an_error() {
    let reply = AiReply::Choices { contents: vec![] };
    let err = analysis_from_reply(reply).unwrap_err();
    assert!(matches!(err, AnalysisError::EmptyResponse));
    assert_eq!(err.message(), "Aucune réponse reçue d'OpenAI");
}

#[test]
fn http_error_surfaces_status_and_body() {
    let reply = AiReply::HttpError { status: 404, body: "introuvable".to_string() };
    let err = analysis_from_reply(reply).unwrap_err();
    assert_eq!(err.message(), "Erreur API OpenAI (404): introuvable");
}

#[test]
fn malformed_body_is_a_parse_error() {
    let err = analysis_from_reply(AiReply::MalformedBody).unwrap_err();
    assert_eq!(err.message(), "Échec du parsing de la réponse JSON d'OpenAI");
}

#[test]
fn transport_failure_names_the_cause() {
    let reply = AiReply::TransportFailed { detail: "délai dépassé".to_string() };
    let err = analysis_from_reply(reply).unwrap_err();
    assert_eq!(
        err.message(),
        "Échec de l'envoi de la requête à OpenAI : délai dépassé"
    );
}
