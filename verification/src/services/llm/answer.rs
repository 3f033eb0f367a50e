//! From the provider's reply to an answer or an error.

use vstd::prelude::*;
use crate::json::{json_tree, parse_document, parsed_document, JsonTree};
use super::chat::ChatResponse;
use super::error::{ProviderError, ProviderErrorView};
use super::schema::response_of_tree;

verus! {

/// An answer, and the provider's payload it was taken from.
#[derive(Debug, Clone)]
pub struct AskResult {
    pub answer_text: String,
    /// The payload as the provider sent it, members unknown to this crate
    /// included.
    pub raw_payload: Option<serde_json::Value>,
}

/// An answer as a mathematical value.
pub struct AskResultView {
    pub answer_text: Seq<char>,
    pub raw_payload: Option<JsonTree>,
}

impl View for AskResult {
    type V = AskResultView;

    open spec fn view(&self) -> AskResultView {
        AskResultView {
            answer_text: self.answer_text@,
            raw_payload: match self.raw_payload {
                Some(payload) => Some(json_tree(payload)),
                None => None,
            },
        }
    }
}

/// The outcome of a question as a mathematical value.
pub open spec fn outcome_view(outcome: Result<AskResult, ProviderError>) -> Result<
    AskResultView,
    ProviderErrorView,
> {
    match outcome {
        Ok(result) => Ok(result@),
        Err(error) => Err(error@),
    }
}

/// Whether an HTTP status reports success: 200 to 299.
pub open spec fn is_success(status: u16) -> bool {
    200 <= status <= 299
}

/// What a payload means: the content of its first choice, with the payload
/// itself beside it; a schema error where it is no completion; an empty
/// response where it is one without choices.
pub open spec fn interpret_tree(tree: JsonTree) -> Result<AskResultView, ProviderErrorView> {
    match response_of_tree(tree) {
        None => Err(ProviderErrorView::Schema),
        Some(response) => if response.choices.len() == 0 {
            Err(ProviderErrorView::EmptyResponse)
        } else {
            Ok(
                AskResultView {
                    answer_text: response.choices[0].message.content,
                    raw_payload: Some(tree),
                },
            )
        },
    }
}

/// What the outcome of parsing a body means.
pub open spec fn interpret_parsed(parsed: Result<JsonTree, Seq<char>>) -> Result<
    AskResultView,
    ProviderErrorView,
> {
    match parsed {
        Ok(tree) => interpret_tree(tree),
        Err(fault) => Err(ProviderErrorView::Parse(fault)),
    }
}

/// What a response with the given status and body means. The status is
/// judged first: the body of a failed response is not looked at.
pub open spec fn interpret_response(status: u16, body: Seq<char>) -> Result<
    AskResultView,
    ProviderErrorView,
> {
    if !is_success(status) {
        Err(ProviderErrorView::HttpStatus(status))
    } else {
        interpret_parsed(parsed_document(body))
    }
}

/// Whether a status reports success.
pub fn status_is_success(status: u16) -> (success: bool)
    ensures
        success == is_success(status),
{
    200 <= status && status <= 299
}

/// Takes the answer out of a parsed payload and hands the payload back
/// beside it, untouched.
pub fn extract_answer(payload: serde_json::Value) -> (outcome: Result<AskResult, ProviderError>)
    ensures
        outcome_view(outcome) == interpret_tree(json_tree(payload)),
{
    let response = match ChatResponse::from_value(&payload) {
        Some(response) => response,
        None => { return Err(ProviderError::Schema); },
    };
    if response.choices.len() == 0 {
        return Err(ProviderError::EmptyResponse);
    }
    let answer_text = response.choices[0].message.content.clone();
    Ok(AskResult { answer_text, raw_payload: Some(payload) })
}

/// The outcome of parsing as a mathematical value.
pub open spec fn parsed_view(parsed: Result<serde_json::Value, String>) -> Result<
    JsonTree,
    Seq<char>,
> {
    match parsed {
        Ok(payload) => Ok(json_tree(payload)),
        Err(fault) => Err(fault@),
    }
}

/// Interprets the outcome of parsing a body: a payload, or the description
/// of the fault that kept the body from being one.
pub fn interpret_parsed_body(parsed: Result<serde_json::Value, String>) -> (outcome: Result<
    AskResult,
    ProviderError,
>)
    ensures
        outcome_view(outcome) == interpret_parsed(parsed_view(parsed)),
{
    match parsed {
        Ok(payload) => extract_answer(payload),
        Err(fault) => Err(ProviderError::Parse(fault)),
    }
}

/// Interprets a response that was read in full.
pub fn interpret_body(status: u16, body: &str) -> (outcome: Result<AskResult, ProviderError>)
    ensures
        outcome_view(outcome) == interpret_response(status, body@),
{
    if !status_is_success(status) {
        return Err(ProviderError::HttpStatus(status));
    }
    interpret_parsed_body(parse_document(body))
}

} // verus!
