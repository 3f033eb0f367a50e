//! Error descriptions and the text helpers under them.

use mimi_backend::services::llm::error::TransportStage;
use mimi_backend::services::llm::text::{decimal_text, joined, same_text};
use mimi_backend::services::llm::ProviderError;

#[test]
fn decimal_text_writes_numbers() {
    assert_eq!(decimal_text(0), "0");
    assert_eq!(decimal_text(7), "7");
    assert_eq!(decimal_text(9), "9");
    assert_eq!(decimal_text(10), "10");
    assert_eq!(decimal_text(99), "99");
    assert_eq!(decimal_text(100), "100");
    assert_eq!(decimal_text(404), "404");
    assert_eq!(decimal_text(12345), "12345");
    assert_eq!(decimal_text(u16::MAX), "65535");
}

#[test]
fn decimal_text_agrees_with_std_everywhere() {
    for n in 0..=u16::MAX {
        assert_eq!(decimal_text(n), n.to_string());
    }
}

#[test]
fn joined_and_same_text() {
    assert_eq!(joined("", ""), "");
    assert_eq!(joined("Bearer ", "abc"), "Bearer abc");
    assert_eq!(joined("é", "ü"), "éü");
    assert!(same_text("", ""));
    assert!(same_text("true", "true"));
    assert!(!same_text("true", "True"));
    assert!(!same_text("true", "true "));
}

#[test]
fn messages_of_every_error() {
    let send = ProviderError::Network { stage: TransportStage::Send, detail: "timed out".to_string() };
    assert_eq!(send.summary(), "Request failed");
    assert_eq!(send.message(), "Request failed: timed out");

    let read = ProviderError::Network { stage: TransportStage::Read, detail: "reset".to_string() };
    assert_eq!(read.summary(), "Failed to read response");
    assert_eq!(read.message(), "Failed to read response: reset");

    let status = ProviderError::HttpStatus(404);
    assert_eq!(status.summary(), "OpenAI API error");
    assert_eq!(status.message(), "OpenAI API error: 404");

    let parse = ProviderError::Parse("expected value at line 1 column 1".to_string());
    assert_eq!(parse.summary(), "Failed to parse response");
    assert_eq!(parse.message(), "Failed to parse response: expected value at line 1 column 1");

    assert_eq!(ProviderError::Schema.summary(), "Failed to deserialize response");
    assert_eq!(ProviderError::Schema.message(), "Failed to deserialize response");

    assert_eq!(ProviderError::EmptyResponse.summary(), "No response from OpenAI");
    assert_eq!(ProviderError::EmptyResponse.message(), "No response from OpenAI");
}

#[test]
fn empty_detail_keeps_the_colon() {
    let error = ProviderError::Parse(String::new());
    assert_eq!(error.message(), "Failed to parse response: ");
}
