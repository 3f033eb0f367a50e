//! The shape of a chat completion, and the reading of one from a JSON
//! value.
//!
//! A completion is an object whose member `choices` is an array; each
//! element is an object whose member `message` is an object with the
//! string members `role`, one of the three role names, and `content`.
//! Members beyond these are allowed everywhere and ignored.

use vstd::prelude::*;
use crate::json::{items_of, json_tree, member_of, text_of, trees_of, JsonTree};
use super::chat::{
    role_of_text, ChatMessage, ChatMessageView, ChatResponse, ChatResponseView, Choice, ChoiceView,
    Role,
};

verus! {

/// The message that a document describes, if it has the shape of one.
pub open spec fn message_of_tree(tree: JsonTree) -> Option<ChatMessageView> {
    match (tree.member("role"@), tree.member("content"@)) {
        (Some(JsonTree::Text(name)), Some(JsonTree::Text(content))) => match role_of_text(name) {
            Some(role) => Some(ChatMessageView { role, content }),
            None => None,
        },
        _ => None,
    }
}

/// The choice that a document describes, if it has the shape of one.
pub open spec fn choice_of_tree(tree: JsonTree) -> Option<ChoiceView> {
    match tree.member("message"@) {
        Some(inner) => match message_of_tree(inner) {
            Some(message) => Some(ChoiceView { message }),
            None => None,
        },
        None => None,
    }
}

/// Every document of the sequence has the shape of a choice.
pub open spec fn all_choices(trees: Seq<JsonTree>) -> bool {
    forall|i: int| 0 <= i < trees.len() ==> (#[trigger] choice_of_tree(trees[i])) is Some
}

/// The choices that a sequence of documents describes.
pub open spec fn choices_of_trees(trees: Seq<JsonTree>) -> Seq<ChoiceView> {
    Seq::new(trees.len(), |i: int| choice_of_tree(trees[i])->Some_0)
}

/// The completion that a document describes, if it has the shape of one.
pub open spec fn response_of_tree(tree: JsonTree) -> Option<ChatResponseView> {
    match tree.member("choices"@) {
        Some(JsonTree::Array(trees)) => if all_choices(trees) {
            Some(ChatResponseView { choices: choices_of_trees(trees) })
        } else {
            None
        },
        _ => None,
    }
}

impl ChatMessage {
    /// Reads a message from a JSON value.
    pub fn from_value(value: &serde_json::Value) -> (message: Option<ChatMessage>)
        ensures
            match message {
                Some(read) => message_of_tree(json_tree(*value)) == Some(read@),
                None => message_of_tree(json_tree(*value)) is None,
            },
    {
        let role_text = match member_of(value, "role") {
            Some(inner) => match text_of(inner) {
                Some(text) => text,
                None => { return None; },
            },
            None => { return None; },
        };
        let content = match member_of(value, "content") {
            Some(inner) => match text_of(inner) {
                Some(text) => text,
                None => { return None; },
            },
            None => { return None; },
        };
        match Role::from_text(role_text) {
            Some(role) => Some(ChatMessage { role, content: content.to_owned() }),
            None => None,
        }
    }
}

impl Choice {
    /// Reads a choice from a JSON value.
    pub fn from_value(value: &serde_json::Value) -> (choice: Option<Choice>)
        ensures
            match choice {
                Some(read) => choice_of_tree(json_tree(*value)) == Some(read@),
                None => choice_of_tree(json_tree(*value)) is None,
            },
    {
        match member_of(value, "message") {
            Some(inner) => match ChatMessage::from_value(inner) {
                Some(message) => Some(Choice { message }),
                None => None,
            },
            None => None,
        }
    }
}

impl ChatResponse {
    /// Reads a completion from a JSON value.
    pub fn from_value(value: &serde_json::Value) -> (response: Option<ChatResponse>)
        ensures
            match response {
                Some(read) => response_of_tree(json_tree(*value)) == Some(read@),
                None => response_of_tree(json_tree(*value)) is None,
            },
    {
        let elements = match member_of(value, "choices") {
            Some(inner) => match items_of(inner) {
                Some(elements) => elements,
                None => { return None; },
            },
            None => { return None; },
        };
        let ghost trees = trees_of(elements@);
        assert(json_tree(*value).member("choices"@) == Some(JsonTree::Array(trees)));
        let mut choices: Vec<Choice> = Vec::new();
        let mut i: usize = 0;
        while i < elements.len()
            invariant
                0 <= i <= elements.len(),
                trees == trees_of(elements@),
                json_tree(*value).member("choices"@) == Some(JsonTree::Array(trees)),
                choices@.len() == i,
                forall|k: int| 0 <= k < i ==> choice_of_tree(trees[k]) == Some(#[trigger] choices@[k]@),
            decreases elements.len() - i,
        {
            match Choice::from_value(&elements[i]) {
                Some(choice) => {
                    choices.push(choice);
                },
                None => {
                    assert(choice_of_tree(trees[i as int]) is None);
                    return None;
                },
            }
            i += 1;
        }
        let response = ChatResponse { choices };
        proof {
            assert forall|k: int| 0 <= k < trees.len() implies (#[trigger] choice_of_tree(
                trees[k],
            )) is Some by {
                assert(choice_of_tree(trees[k]) == Some(response.choices@[k]@));
            }
            assert(response@.choices =~= choices_of_trees(trees));
        }
        Some(response)
    }
}

} // verus!
