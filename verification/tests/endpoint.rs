//! The question endpoint, the settings and the small helpers.

use std::sync::Arc;

use mimi_backend::db::get_user_by_id_query;
use mimi_backend::handlers::ask::{failure_log, respond, AskReply, AskState};
use mimi_backend::middleware::allow_action;
use mimi_backend::models::{AskRequest, Payment, Reading, User};
use mimi_backend::services::llm::answer::interpret_body;
use mimi_backend::services::llm::error::TransportStage;
use mimi_backend::services::llm::{AskStep, OpenAiClient, ProviderConfig, ProviderError, Reply};

fn state(mock_mode: bool) -> AskState {
    AskState {
        llm_client: Arc::new(OpenAiClient::new(
            "key".to_string(),
            "gpt-4o-mini".to_string(),
            mock_mode,
        )),
    }
}

#[test]
fn answer_becomes_ok_reply() {
    let body = r#"{"id":"c","choices":[{"message":{"role":"assistant","content":"hello"}}]}"#;
    let reply = respond(interpret_body(200, body));
    assert_eq!(reply.status(), 200);
    match reply {
        AskReply::Answer(answer) => {
            assert_eq!(answer.response, "hello");
            assert_eq!(answer.raw, Some(serde_json::from_str(body).unwrap()));
        }
        AskReply::Failure(failure) => panic!("got failure {:?}", failure),
    }
}

#[test]
fn every_error_becomes_a_generic_server_error() {
    let cases: Vec<(ProviderError, &str)> = vec![
        (
            ProviderError::Network { stage: TransportStage::Send, detail: "dns: api.openai.com".to_string() },
            "Failed to generate response: Request failed",
        ),
        (
            ProviderError::Network { stage: TransportStage::Read, detail: "reset by peer".to_string() },
            "Failed to generate response: Failed to read response",
        ),
        (ProviderError::HttpStatus(401), "Failed to generate response: OpenAI API error"),
        (
            ProviderError::Parse("expected value at line 1 column 1".to_string()),
            "Failed to generate response: Failed to parse response",
        ),
        (ProviderError::Schema, "Failed to generate response: Failed to deserialize response"),
        (ProviderError::EmptyResponse, "Failed to generate response: No response from OpenAI"),
    ];
    for (error, expected) in cases {
        let reply = respond(Err(error));
        assert_eq!(reply.status(), 500);
        match reply {
            AskReply::Failure(failure) => assert_eq!(failure.error, expected),
            AskReply::Answer(answer) => panic!("got answer {:?}", answer),
        }
    }
}

#[test]
fn log_line_holds_the_particulars() {
    assert_eq!(
        failure_log(&ProviderError::HttpStatus(503)),
        "Failed to generate response: OpenAI API error: 503"
    );
    assert_eq!(
        failure_log(&ProviderError::Network {
            stage: TransportStage::Send,
            detail: "timed out".to_string()
        }),
        "Failed to generate response: Request failed: timed out"
    );
    assert_eq!(
        failure_log(&ProviderError::EmptyResponse),
        "Failed to generate response: No response from OpenAI"
    );
}

#[test]
fn endpoint_in_mock_mode_answers_at_once() {
    let request = AskRequest { question: "Test question".to_string() };
    match state(true).begin(&request) {
        AskStep::Answered(result) => {
            let reply = respond(Ok(result));
            assert_eq!(reply.status(), 200);
            match reply {
                AskReply::Answer(answer) => {
                    assert_eq!(answer.response, "This is a mock response for testing purposes.");
                    assert_eq!(answer.raw.unwrap()["model"], "gpt-4o-mini");
                }
                AskReply::Failure(failure) => panic!("got failure {:?}", failure),
            }
        }
        AskStep::Call(_) => panic!("mock mode asked for a call"),
    }
}

#[test]
fn endpoint_in_live_mode_calls_then_replies() {
    let state = state(false);
    let request = AskRequest { question: "Why?".to_string() };
    match state.begin(&request) {
        AskStep::Call(call) => {
            assert_eq!(call.authorization, "Bearer key");
            assert_eq!(call.body.messages[0].content, "Why?");
        }
        AskStep::Answered(_) => panic!("live mode answered without a call"),
    }
    let good = r#"{"choices":[{"message":{"role":"assistant","content":"Because."}}]}"#;
    match state.finish(Reply::Received { status: 200, body: good.to_string() }) {
        AskReply::Answer(answer) => assert_eq!(answer.response, "Because."),
        AskReply::Failure(failure) => panic!("got failure {:?}", failure),
    }
    let failed = state.finish(Reply::Received { status: 500, body: "secret detail".to_string() });
    assert_eq!(failed.status(), 500);
    match failed {
        AskReply::Failure(failure) => {
            assert_eq!(failure.error, "Failed to generate response: OpenAI API error")
        }
        AskReply::Answer(answer) => panic!("got answer {:?}", answer),
    }
    let lost = state.finish(Reply::SendFailed("timed out".to_string()));
    assert_eq!(lost.status(), 500);
}

#[test]
fn settings_fall_back_to_defaults() {
    let config = ProviderConfig::from_settings(None, None, None);
    assert!(!config.mock_mode);
    assert_eq!(config.api_key, "");
    assert_eq!(config.model, "gpt-3.5-turbo");

    let config = ProviderConfig::from_settings(Some("true".to_string()), None, None);
    assert!(config.mock_mode);
    assert_eq!(config.api_key, "mock-api-key");
    assert_eq!(config.model, "gpt-3.5-turbo");

    let config = ProviderConfig::from_settings(
        Some("true".to_string()),
        Some("sk-real".to_string()),
        Some("gpt-4o-mini".to_string()),
    );
    assert!(config.mock_mode);
    assert_eq!(config.api_key, "sk-real");
    assert_eq!(config.model, "gpt-4o-mini");

    let config = ProviderConfig::from_settings(Some("false".to_string()), Some(String::new()), None);
    assert!(!config.mock_mode);
    assert_eq!(config.api_key, "");
}

#[test]
fn mock_flag_must_be_the_word_true() {
    for flag in ["1", "yes", "TRUE", "True", " true", "true ", "", "false", "on"] {
        let config = ProviderConfig::from_settings(Some(flag.to_string()), None, None);
        assert!(!config.mock_mode, "flag {:?}", flag);
        assert_eq!(config.api_key, "");
    }
}

#[test]
fn settings_make_the_client() {
    let client = ProviderConfig::from_settings(Some("true".to_string()), None, None).into_client();
    assert!(client.mock_mode());
    assert_eq!(client.model(), "gpt-3.5-turbo");
    let client =
        ProviderConfig::from_settings(None, Some("sk".to_string()), Some("m".to_string())).into_client();
    match client.ask("q") {
        AskStep::Call(call) => {
            assert_eq!(call.authorization, "Bearer sk");
            assert_eq!(call.body.model, "m");
        }
        AskStep::Answered(_) => panic!("live mode answered without a call"),
    }
}

#[test]
fn user_query_is_fixed() {
    assert_eq!(get_user_by_id_query(1), "SELECT id, line_id, name FROM users WHERE id = $1");
    assert_eq!(get_user_by_id_query(-5), get_user_by_id_query(i64::MAX));
}

#[test]
fn every_action_is_allowed() {
    assert!(allow_action("user-1"));
    assert!(allow_action(""));
}

#[test]
fn records_hold_their_fields() {
    let user = User { id: 1, line_id: Some("U123".to_string()), name: None };
    let copy = user.clone();
    assert_eq!(copy.id, 1);
    assert_eq!(copy.line_id.as_deref(), Some("U123"));
    assert!(copy.name.is_none());
    let payment = Payment { id: 2, user_id: 1, amount_baht: 99 };
    assert_eq!(payment.clone().amount_baht, 99);
    let reading = Reading { id: 3, user_id: 1, question: "q".to_string() };
    assert_eq!(reading.clone().question, "q");
}
