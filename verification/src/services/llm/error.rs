//! The ways in which asking the provider fails.

use vstd::prelude::*;
use super::text::{decimal, decimal_text, joined};

verus! {

/// The part of an HTTP exchange in which the transport failed.
#[derive(Debug, Clone, Copy, PartialEq, Eq, Structural)]
pub enum TransportStage {
    /// Connecting, sending the request or waiting for the status line.
    Send,
    /// Reading the body of the response.
    Read,
}

/// Why a question got no answer.
#[derive(Debug, Clone)]
pub enum ProviderError {
    /// The transport failed or timed out.
    Network { stage: TransportStage, detail: String },
    /// The provider answered with a status outside 200 to 299.
    HttpStatus(u16),
    /// The body is not a JSON document.
    Parse(String),
    /// The body is a JSON document of another shape than a chat completion.
    Schema,
    /// The completion holds no choice.
    EmptyResponse,
}

/// A provider error as a mathematical value.
pub enum ProviderErrorView {
    Network { stage: TransportStage, detail: Seq<char> },
    HttpStatus(u16),
    Parse(Seq<char>),
    Schema,
    EmptyResponse,
}

impl View for ProviderError {
    type V = ProviderErrorView;

    open spec fn view(&self) -> ProviderErrorView {
        match self {
            ProviderError::Network { stage, detail } => ProviderErrorView::Network {
                stage: *stage,
                detail: detail@,
            },
            ProviderError::HttpStatus(status) => ProviderErrorView::HttpStatus(*status),
            ProviderError::Parse(detail) => ProviderErrorView::Parse(detail@),
            ProviderError::Schema => ProviderErrorView::Schema,
            ProviderError::EmptyResponse => ProviderErrorView::EmptyResponse,
        }
    }
}

impl ProviderErrorView {
    /// What went wrong, in general terms: nothing that the provider or the
    /// transport said is in it.
    pub open spec fn summary(self) -> Seq<char> {
        match self {
            ProviderErrorView::Network { stage: TransportStage::Send, .. } => "Request failed"@,
            ProviderErrorView::Network { stage: TransportStage::Read, .. } => "Failed to read response"@,
            ProviderErrorView::HttpStatus(_) => "OpenAI API error"@,
            ProviderErrorView::Parse(_) => "Failed to parse response"@,
            ProviderErrorView::Schema => "Failed to deserialize response"@,
            ProviderErrorView::EmptyResponse => "No response from OpenAI"@,
        }
    }

    /// The particulars of the failure, where there are any.
    pub open spec fn detail(self) -> Option<Seq<char>> {
        match self {
            ProviderErrorView::Network { detail, .. } => Some(detail),
            ProviderErrorView::HttpStatus(status) => Some(decimal(status as nat)),
            ProviderErrorView::Parse(detail) => Some(detail),
            ProviderErrorView::Schema => None,
            ProviderErrorView::EmptyResponse => None,
        }
    }

    /// The summary, followed by a colon and the particulars where there
    /// are any.
    pub open spec fn message(self) -> Seq<char> {
        match self.detail() {
            Some(detail) => self.summary() + ": "@ + detail,
            None => self.summary(),
        }
    }
}

impl ProviderError {
    /// What went wrong, in general terms. Fit for a caller outside the
    /// service: it holds no status code and no text from upstream.
    pub fn summary(&self) -> (text: &'static str)
        ensures
            text@ == self@.summary(),
    {
        match self {
            ProviderError::Network { stage: TransportStage::Send, .. } => "Request failed",
            ProviderError::Network { stage: TransportStage::Read, .. } => "Failed to read response",
            ProviderError::HttpStatus(_) => "OpenAI API error",
            ProviderError::Parse(_) => "Failed to parse response",
            ProviderError::Schema => "Failed to deserialize response",
            ProviderError::EmptyResponse => "No response from OpenAI",
        }
    }

    /// The full description, for the service's own log.
    pub fn message(&self) -> (text: String)
        ensures
            text@ == self@.message(),
    {
        let summary = self.summary();
        match self {
            ProviderError::Network { detail, .. } => {
                joined(summary, ": ").concat(detail.as_str())
            },
            ProviderError::HttpStatus(status) => {
                let code = decimal_text(*status);
                joined(summary, ": ").concat(code.as_str())
            },
            ProviderError::Parse(detail) => { joined(summary, ": ").concat(detail.as_str()) },
            ProviderError::Schema => summary.to_owned(),
            ProviderError::EmptyResponse => summary.to_owned(),
        }
    }
}

} // verus!
