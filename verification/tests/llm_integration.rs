//! The provider in mock mode, through the concrete type and through the
//! capability.

use std::sync::Arc;

use mimi_backend::services::llm::{AskStep, LlmProvider, OpenAiClient};

#[test]
fn test_openai_mock_mode() {
    let client = OpenAiClient::new("mock-api-key".to_string(), "gpt-4o-mini".to_string(), true);

    let step = client.ask("Test question");

    let result = match step {
        AskStep::Answered(result) => result,
        AskStep::Call(_) => panic!("mock mode asked for a call"),
    };
    let (response, raw) = (result.answer_text, result.raw_payload);
    assert_eq!(response, "This is a mock response for testing purposes.");
    assert!(raw.is_some());

    let raw_json = raw.unwrap();
    assert_eq!(raw_json["id"], "mock-123");
    assert_eq!(raw_json["model"], "gpt-4o-mini");
}

#[test]
fn test_provider_trait_object() {
    let client: Arc<dyn LlmProvider> = Arc::new(OpenAiClient::new(
        "mock-api-key".to_string(),
        "gpt-4o-mini".to_string(),
        true,
    ));

    let step = client.ask("Test via trait object");
    let result = match step {
        AskStep::Answered(result) => result,
        AskStep::Call(_) => panic!("mock mode asked for a call"),
    };
    assert_eq!(result.answer_text, "This is a mock response for testing purposes.");
}

#[test]
fn trait_object_and_concrete_client_agree() {
    let concrete = OpenAiClient::new("k".to_string(), "gpt-4o-mini".to_string(), true);
    let shared: Arc<dyn LlmProvider> = Arc::new(concrete.clone());
    let direct = match concrete.ask("same question") {
        AskStep::Answered(result) => result,
        AskStep::Call(_) => panic!("mock mode asked for a call"),
    };
    let through = match shared.ask("same question") {
        AskStep::Answered(result) => result,
        AskStep::Call(_) => panic!("mock mode asked for a call"),
    };
    assert_eq!(direct.answer_text, through.answer_text);
    assert_eq!(direct.raw_payload, through.raw_payload);
}

#[test]
fn mock_answer_does_not_depend_on_question() {
    let client = OpenAiClient::new(String::new(), "some-model".to_string(), true);
    for question in ["", "a", "What is the meaning of life?", "ünïcödé \n\t \"quoted\""] {
        match client.ask(question) {
            AskStep::Answered(result) => {
                assert_eq!(result.answer_text, "This is a mock response for testing purposes.");
                let raw = result.raw_payload.unwrap();
                assert_eq!(raw["id"], "mock-123");
                assert_eq!(raw["model"], "some-model");
            }
            AskStep::Call(_) => panic!("mock mode asked for a call"),
        }
    }
}

#[test]
fn mock_payload_is_the_whole_canned_completion() {
    let client = OpenAiClient::new(String::new(), "gpt-4o-mini".to_string(), true);
    let raw = match client.ask("q") {
        AskStep::Answered(result) => result.raw_payload.unwrap(),
        AskStep::Call(_) => panic!("mock mode asked for a call"),
    };
    let expected: serde_json::Value = serde_json::from_str(
        r#"{
            "id": "mock-123",
            "object": "chat.completion",
            "model": "gpt-4o-mini",
            "choices": [{
                "message": {
                    "role": "assistant",
                    "content": "This is a mock response for testing purposes."
                }
            }]
        }"#,
    )
    .unwrap();
    assert_eq!(raw, expected);
}

#[test]
fn mock_mode_completes_nothing_differently() {
    // `complete` reads the reply alone: the mode of the client plays no part.
    let mock = OpenAiClient::new(String::new(), "m".to_string(), true);
    let live = OpenAiClient::new("key".to_string(), "m".to_string(), false);
    let body = r#"{"choices":[{"message":{"role":"assistant","content":"hi"}}]}"#;
    let reply = mimi_backend::services::llm::Reply::Received { status: 200, body: body.to_string() };
    let a = mock.complete(reply.clone()).unwrap();
    let b = live.complete(reply).unwrap();
    assert_eq!(a.answer_text, "hi");
    assert_eq!(a.answer_text, b.answer_text);
    assert_eq!(a.raw_payload, b.raw_payload);
}

#[test]
fn client_reports_its_settings() {
    let client = OpenAiClient::new("secret".to_string(), "gpt-4o-mini".to_string(), false);
    assert_eq!(client.model(), "gpt-4o-mini");
    assert!(!client.mock_mode());
    assert_eq!(client.timeout_secs(), 20);
    let mock = OpenAiClient::new("secret".to_string(), "gpt-4o-mini".to_string(), true);
    assert!(mock.mock_mode());
}
