//! Chat messages, the request sent to the provider and the typed part of
//! its reply.

use vstd::prelude::*;
use super::text::same_text;

verus! {

/// Upper bound on the tokens of a completion.
pub const MAX_TOKENS: u32 = 64;

/// Sampling temperature of every request, in hundredths: zero, so that
/// answers are reproducible.
pub const TEMPERATURE_HUNDREDTHS: u32 = 0;

/// Largest sampling temperature the provider accepts, in hundredths.
pub const TEMPERATURE_LIMIT_HUNDREDTHS: u32 = 200;

/// Who speaks in a chat message.
#[derive(Debug, Clone, Copy, PartialEq, Eq, Structural)]
pub enum Role {
    User,
    Assistant,
    System,
}

/// The role that a wire name stands for, if any.
pub open spec fn role_of_text(text: Seq<char>) -> Option<Role> {
    if text == "user"@ {
        Some(Role::User)
    } else if text == "assistant"@ {
        Some(Role::Assistant)
    } else if text == "system"@ {
        Some(Role::System)
    } else {
        None
    }
}

impl Role {
    /// The name of the role on the wire.
    pub open spec fn text(self) -> Seq<char> {
        match self {
            Role::User => "user"@,
            Role::Assistant => "assistant"@,
            Role::System => "system"@,
        }
    }

    /// The name of the role on the wire.
    pub fn as_str(self) -> (name: &'static str)
        ensures
            name@ == self.text(),
    {
        match self {
            Role::User => "user",
            Role::Assistant => "assistant",
            Role::System => "system",
        }
    }

    /// Reads a role from its wire name.
    pub fn from_text(text: &str) -> (role: Option<Role>)
        ensures
            role == role_of_text(text@),
    {
        if same_text(text, "user") {
            Some(Role::User)
        } else if same_text(text, "assistant") {
            Some(Role::Assistant)
        } else if same_text(text, "system") {
            Some(Role::System)
        } else {
            None
        }
    }
}

/// The three wire names are distinct, so reading a role's name gives the
/// role back.
pub proof fn lemma_role_text_round_trip(role: Role)
    ensures
        role_of_text(role.text()) == Some(role),
{
    reveal_strlit("user");
    reveal_strlit("assistant");
    reveal_strlit("system");
    assert("user"@.len() == 4);
    assert("assistant"@.len() == 9);
    assert("system"@.len() == 6);
}

/// One message of a chat.
#[derive(Debug, Clone)]
pub struct ChatMessage {
    pub role: Role,
    pub content: String,
}

/// A chat message as a mathematical value.
pub struct ChatMessageView {
    pub role: Role,
    pub content: Seq<char>,
}

impl View for ChatMessage {
    type V = ChatMessageView;

    open spec fn view(&self) -> ChatMessageView {
        ChatMessageView { role: self.role, content: self.content@ }
    }
}

/// The messages of a list, each as a mathematical value.
pub open spec fn messages_view(messages: Seq<ChatMessage>) -> Seq<ChatMessageView> {
    messages.map_values(|message: ChatMessage| message@)
}

/// A chat completion request.
#[derive(Debug, Clone)]
pub struct ChatRequest {
    pub model: String,
    pub messages: Vec<ChatMessage>,
    pub max_tokens: u32,
    /// Sampling temperature in hundredths, from 0 to 200.
    pub temperature_hundredths: u32,
}

/// A chat completion request as a mathematical value.
pub struct ChatRequestView {
    pub model: Seq<char>,
    pub messages: Seq<ChatMessageView>,
    pub max_tokens: nat,
    pub temperature_hundredths: nat,
}

impl View for ChatRequest {
    type V = ChatRequestView;

    open spec fn view(&self) -> ChatRequestView {
        ChatRequestView {
            model: self.model@,
            messages: messages_view(self.messages@),
            max_tokens: self.max_tokens as nat,
            temperature_hundredths: self.temperature_hundredths as nat,
        }
    }
}

impl ChatRequestView {
    /// A request carries exactly one message, asks for at least one token
    /// and keeps the temperature within the provider's range.
    pub open spec fn well_formed(self) -> bool {
        &&& self.messages.len() == 1
        &&& self.max_tokens >= 1
        &&& self.temperature_hundredths <= TEMPERATURE_LIMIT_HUNDREDTHS
    }
}

/// The request that puts one question to a model.
pub open spec fn question_request(model: Seq<char>, question: Seq<char>) -> ChatRequestView {
    ChatRequestView {
        model,
        messages: seq![ChatMessageView { role: Role::User, content: question }],
        max_tokens: MAX_TOKENS as nat,
        temperature_hundredths: TEMPERATURE_HUNDREDTHS as nat,
    }
}

impl ChatRequest {
    /// Builds the request that puts one question, as the user, to a model.
    pub fn for_question(model: &str, question: &str) -> (request: ChatRequest)
        ensures
            request@ == question_request(model@, question@),
            request@.well_formed(),
    {
        let mut messages: Vec<ChatMessage> = Vec::new();
        messages.push(ChatMessage { role: Role::User, content: question.to_owned() });
        let request = ChatRequest {
            model: model.to_owned(),
            messages,
            max_tokens: MAX_TOKENS,
            temperature_hundredths: TEMPERATURE_HUNDREDTHS,
        };
        assert(request@.messages =~= seq![
            ChatMessageView { role: Role::User, content: question@ },
        ]);
        request
    }
}

/// One candidate answer of a completion.
#[derive(Debug, Clone)]
pub struct Choice {
    pub message: ChatMessage,
}

/// A candidate answer as a mathematical value.
pub struct ChoiceView {
    pub message: ChatMessageView,
}

impl View for Choice {
    type V = ChoiceView;

    open spec fn view(&self) -> ChoiceView {
        ChoiceView { message: self.message@ }
    }
}

/// The typed part of a chat completion: its choices, in the provider's
/// order.
#[derive(Debug, Clone)]
pub struct ChatResponse {
    pub choices: Vec<Choice>,
}

/// A chat completion as a mathematical value.
pub struct ChatResponseView {
    pub choices: Seq<ChoiceView>,
}

impl View for ChatResponse {
    type V = ChatResponseView;

    open spec fn view(&self) -> ChatResponseView {
        ChatResponseView { choices: self.choices@.map_values(|choice: Choice| choice@) }
    }
}

} // verus!
