//! The provider client.
//!
//! A question is answered in two steps around one HTTP exchange, which the
//! embedding program performs: [`OpenAiClient::ask`] either answers at once
//! (mock mode) or names the call to make, and [`OpenAiClient::complete`]
//! turns what came of that call into the answer or the error.

use vstd::prelude::*;
use super::answer::{
    interpret_body, interpret_response, outcome_view, AskResult, AskResultView,
};
use super::chat::{question_request, ChatRequest, ChatRequestView};
use super::error::{ProviderError, ProviderErrorView, TransportStage};
use super::mock::{mock_payload, mock_tree, MOCK_ANSWER};
use super::text::joined;

verus! {

/// Where chat completions are requested.
pub const ENDPOINT: &'static str = "https://api.openai.com/v1/chat/completions";

/// The content type of a request body.
pub const CONTENT_TYPE: &'static str = "application/json";

/// Seconds allowed for a whole exchange: connecting, sending and receiving.
pub const REQUEST_TIMEOUT_SECS: u64 = 20;

/// An HTTP POST to perform. It holds the API key, so it has no `Debug`.
#[derive(Clone)]
pub struct HttpCall {
    pub url: String,
    /// Value of the `Authorization` header.
    pub authorization: String,
    /// Value of the `Content-Type` header.
    pub content_type: String,
    /// Limit on the duration of the whole exchange, in seconds.
    pub timeout_secs: u64,
    /// The body, to be sent as JSON.
    pub body: ChatRequest,
}

/// An HTTP call as a mathematical value.
pub struct HttpCallView {
    pub url: Seq<char>,
    pub authorization: Seq<char>,
    pub content_type: Seq<char>,
    pub timeout_secs: nat,
    pub body: ChatRequestView,
}

impl View for HttpCall {
    type V = HttpCallView;

    open spec fn view(&self) -> HttpCallView {
        HttpCallView {
            url: self.url@,
            authorization: self.authorization@,
            content_type: self.content_type@,
            timeout_secs: self.timeout_secs as nat,
            body: self.body@,
        }
    }
}

/// What came of an HTTP call.
#[derive(Debug, Clone)]
pub enum Reply {
    /// No response arrived: the transport failed or the time ran out.
    SendFailed(String),
    /// A response arrived, but its body could not be read to the end.
    ReadFailed(String),
    /// A response arrived and was read in full.
    Received { status: u16, body: String },
}

/// The outcome of an HTTP call as a mathematical value.
pub enum ReplyView {
    SendFailed(Seq<char>),
    ReadFailed(Seq<char>),
    Received { status: u16, body: Seq<char> },
}

impl View for Reply {
    type V = ReplyView;

    open spec fn view(&self) -> ReplyView {
        match self {
            Reply::SendFailed(detail) => ReplyView::SendFailed(detail@),
            Reply::ReadFailed(detail) => ReplyView::ReadFailed(detail@),
            Reply::Received { status, body } => ReplyView::Received { status: *status, body: body@ },
        }
    }
}

/// The first step of answering a question.
#[derive(Clone)]
pub enum AskStep {
    /// The answer is known without any call.
    Answered(AskResult),
    /// This call has to be made, and its outcome handed to
    /// [`OpenAiClient::complete`].
    Call(HttpCall),
}

/// The first step as a mathematical value.
pub enum AskStepView {
    Answered(AskResultView),
    Call(HttpCallView),
}

impl View for AskStep {
    type V = AskStepView;

    open spec fn view(&self) -> AskStepView {
        match self {
            AskStep::Answered(result) => AskStepView::Answered(result@),
            AskStep::Call(call) => AskStepView::Call(call@),
        }
    }
}

/// The answer of mock mode: the canned text, beside the canned completion
/// for the configured model.
pub open spec fn mock_result(model: Seq<char>) -> AskResultView {
    AskResultView { answer_text: MOCK_ANSWER@, raw_payload: Some(mock_tree(model)) }
}

/// The call that puts a question to a model on behalf of a key's owner.
pub open spec fn question_call(api_key: Seq<char>, model: Seq<char>, question: Seq<char>) -> HttpCallView {
    HttpCallView {
        url: ENDPOINT@,
        authorization: "Bearer "@ + api_key,
        content_type: CONTENT_TYPE@,
        timeout_secs: REQUEST_TIMEOUT_SECS as nat,
        body: question_request(model, question),
    }
}

/// What the outcome of the call means.
pub open spec fn interpret_reply(reply: ReplyView) -> Result<AskResultView, ProviderErrorView> {
    match reply {
        ReplyView::SendFailed(detail) => Err(
            ProviderErrorView::Network { stage: TransportStage::Send, detail },
        ),
        ReplyView::ReadFailed(detail) => Err(
            ProviderErrorView::Network { stage: TransportStage::Read, detail },
        ),
        ReplyView::Received { status, body } => interpret_response(status, body),
    }
}

/// The capability of answering questions through at most one HTTP
/// exchange per question.
pub trait LlmProvider {
    /// Begins to answer a question.
    fn ask(&self, question: &str) -> AskStep;

    /// Ends the answer, from the outcome of the call that `ask` named.
    fn complete(&self, reply: Reply) -> Result<AskResult, ProviderError>;
}

/// Client of the OpenAI chat completion API, with a mock mode that answers
/// without any call.
#[derive(Clone)]
pub struct OpenAiClient {
    api_key: String,
    model: String,
    mock_mode: bool,
}

/// The settings of a client as a mathematical value.
pub struct OpenAiClientView {
    pub api_key: Seq<char>,
    pub model: Seq<char>,
    pub mock_mode: bool,
}

impl View for OpenAiClient {
    type V = OpenAiClientView;

    closed spec fn view(&self) -> OpenAiClientView {
        OpenAiClientView { api_key: self.api_key@, model: self.model@, mock_mode: self.mock_mode }
    }
}

impl OpenAiClient {
    /// Creates a client. The settings are fixed from here on.
    pub fn new(api_key: String, model: String, mock_mode: bool) -> (client: OpenAiClient)
        ensures
            client@ == (OpenAiClientView { api_key: api_key@, model: model@, mock_mode }),
    {
        OpenAiClient { api_key, model, mock_mode }
    }

    /// The model that questions are put to.
    pub fn model(&self) -> (model: &str)
        ensures
            model@ == self@.model,
    {
        self.model.as_str()
    }

    /// Whether the client answers without calling the provider.
    pub fn mock_mode(&self) -> (mock_mode: bool)
        ensures
            mock_mode == self@.mock_mode,
    {
        self.mock_mode
    }

    /// The limit on the duration of each exchange, in seconds.
    pub fn timeout_secs(&self) -> (seconds: u64)
        ensures
            seconds == REQUEST_TIMEOUT_SECS,
    {
        REQUEST_TIMEOUT_SECS
    }

    /// Begins to answer a question. In mock mode the canned answer comes
    /// back at once, whatever the question; otherwise the call that puts
    /// the question to the provider.
    pub fn ask(&self, question: &str) -> (step: AskStep)
        ensures
            self@.mock_mode ==> step@ == AskStepView::Answered(mock_result(self@.model)),
            !self@.mock_mode ==> step@ == AskStepView::Call(
                question_call(self@.api_key, self@.model, question@),
            ),
    {
        if self.mock_mode {
            let payload = mock_payload(self.model.as_str());
            return AskStep::Answered(
                AskResult { answer_text: MOCK_ANSWER.to_owned(), raw_payload: Some(payload) },
            );
        }
        let call = HttpCall {
            url: ENDPOINT.to_owned(),
            authorization: joined("Bearer ", self.api_key.as_str()),
            content_type: CONTENT_TYPE.to_owned(),
            timeout_secs: REQUEST_TIMEOUT_SECS,
            body: ChatRequest::for_question(self.model.as_str(), question),
        };
        AskStep::Call(call)
    }

    /// Ends the answer, from the outcome of the call.
    pub fn complete(&self, reply: Reply) -> (outcome: Result<AskResult, ProviderError>)
        ensures
            outcome_view(outcome) == interpret_reply(reply@),
    {
        match reply {
            Reply::SendFailed(detail) => Err(
                ProviderError::Network { stage: TransportStage::Send, detail },
            ),
            Reply::ReadFailed(detail) => Err(
                ProviderError::Network { stage: TransportStage::Read, detail },
            ),
            Reply::Received { status, body } => interpret_body(status, body.as_str()),
        }
    }
}

impl LlmProvider for OpenAiClient {
    fn ask(&self, question: &str) -> (step: AskStep)
        ensures
            self@.mock_mode ==> step@ == AskStepView::Answered(mock_result(self@.model)),
            !self@.mock_mode ==> step@ == AskStepView::Call(
                question_call(self@.api_key, self@.model, question@),
            ),
    {
        OpenAiClient::ask(self, question)
    }

    fn complete(&self, reply: Reply) -> (outcome: Result<AskResult, ProviderError>)
        ensures
            outcome_view(outcome) == interpret_reply(reply@),
    {
        OpenAiClient::complete(self, reply)
    }
}

} // verus!
