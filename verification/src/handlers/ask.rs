//! The question endpoint: what it hands to the provider and what it
//! answers.

use std::sync::Arc;
use vstd::prelude::*;
use crate::json::{json_tree, JsonTree};
use crate::models::api::{AskRequest, AskResponse};
use crate::services::llm::answer::{outcome_view, AskResult, AskResultView};
use crate::services::llm::client::{
    interpret_reply, mock_result, question_call, AskStep, AskStepView, OpenAiClient, Reply,
};
use crate::services::llm::error::{ProviderError, ProviderErrorView};
use crate::services::llm::text::joined;

verus! {

/// Status of a successful reply.
pub const STATUS_OK: u16 = 200;

/// Status of a reply that reports a failure of the service.
pub const STATUS_INTERNAL_SERVER_ERROR: u16 = 500;

/// Shared state of the question endpoint.
#[derive(Clone)]
pub struct AskState {
    pub llm_client: Arc<OpenAiClient>,
}

/// Body of a reply that reports a failure.
#[derive(Debug)]
pub struct ErrorResponse {
    pub error: String,
}

/// What the endpoint answers.
#[derive(Debug)]
pub enum AskReply {
    Answer(AskResponse),
    Failure(ErrorResponse),
}

/// An endpoint reply as a mathematical value.
pub enum AskReplyView {
    Answer { response: Seq<char>, raw: Option<JsonTree> },
    Failure { error: Seq<char> },
}

impl View for AskReply {
    type V = AskReplyView;

    open spec fn view(&self) -> AskReplyView {
        match self {
            AskReply::Answer(body) => AskReplyView::Answer {
                response: body.response@,
                raw: match body.raw {
                    Some(payload) => Some(json_tree(payload)),
                    None => None,
                },
            },
            AskReply::Failure(body) => AskReplyView::Failure { error: body.error@ },
        }
    }
}

impl AskReplyView {
    /// The HTTP status that goes with the reply.
    pub open spec fn status(self) -> u16 {
        match self {
            AskReplyView::Answer { .. } => STATUS_OK,
            AskReplyView::Failure { .. } => STATUS_INTERNAL_SERVER_ERROR,
        }
    }
}

/// The reply to a question whose outcome is known: the answer with its
/// payload, or a failure described in general terms only.
pub open spec fn reply_for(outcome: Result<AskResultView, ProviderErrorView>) -> AskReplyView {
    match outcome {
        Ok(result) => AskReplyView::Answer {
            response: result.answer_text,
            raw: result.raw_payload,
        },
        Err(error) => AskReplyView::Failure {
            error: "Failed to generate response: "@ + error.summary(),
        },
    }
}

/// The line that the service logs for a failed question, particulars
/// included.
pub open spec fn failure_log_line(error: ProviderErrorView) -> Seq<char> {
    "Failed to generate response: "@ + error.message()
}

impl AskReply {
    /// The HTTP status that goes with the reply.
    pub fn status(&self) -> (status: u16)
        ensures
            status == self@.status(),
    {
        match self {
            AskReply::Answer(_) => STATUS_OK,
            AskReply::Failure(_) => STATUS_INTERNAL_SERVER_ERROR,
        }
    }
}

/// Turns the outcome of a question into the endpoint's reply.
pub fn respond(outcome: Result<AskResult, ProviderError>) -> (reply: AskReply)
    ensures
        reply@ == reply_for(outcome_view(outcome)),
{
    match outcome {
        Ok(result) => AskReply::Answer(
            AskResponse { response: result.answer_text, raw: result.raw_payload },
        ),
        Err(error) => AskReply::Failure(
            ErrorResponse { error: joined("Failed to generate response: ", error.summary()) },
        ),
    }
}

/// The line to log for a failed question.
pub fn failure_log(error: &ProviderError) -> (line: String)
    ensures
        line@ == failure_log_line(error@),
{
    let message = error.message();
    joined("Failed to generate response: ", message.as_str())
}

impl AskState {
    /// Begins to serve a request: the question goes to the shared client
    /// as it stands.
    pub fn begin(&self, request: &AskRequest) -> (step: AskStep)
        ensures
            self.llm_client@.mock_mode ==> step@ == AskStepView::Answered(
                mock_result(self.llm_client@.model),
            ),
            !self.llm_client@.mock_mode ==> step@ == AskStepView::Call(
                question_call(self.llm_client@.api_key, self.llm_client@.model, request.question@),
            ),
    {
        self.llm_client.ask(request.question.as_str())
    }

    /// Ends serving a request whose question needed a call, from the
    /// outcome of that call.
    pub fn finish(&self, reply: Reply) -> (answer: AskReply)
        ensures
            answer@ == reply_for(interpret_reply(reply@)),
    {
        respond(self.llm_client.complete(reply))
    }
}

} // verus!
