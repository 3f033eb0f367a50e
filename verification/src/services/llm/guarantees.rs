//! What holds of the provider client on every input, stated over the
//! specifications of its operations and proved from them.

use vstd::prelude::*;
use crate::json::{parsed_document, JsonTree};
use super::answer::{interpret_response, interpret_tree, is_success, AskResultView};
use super::chat::{lemma_role_text_round_trip, ChatMessageView, Role};
use super::client::{interpret_reply, mock_result, ReplyView};
use super::error::ProviderErrorView;
use super::mock::{
    lemma_mock_keys_differ, mock_choice_tree, mock_message_tree, mock_tree, MOCK_ANSWER,
};
use super::schema::{choice_of_tree, choices_of_trees, message_of_tree, response_of_tree};

verus! {

/// A choice whose message has a string `content`.
pub open spec fn has_choice_shape(tree: JsonTree) -> bool {
    tree.member("message"@) matches Some(message) && message.member("content"@) matches Some(
        JsonTree::Text(_),
    )
}

/// A completion: an object whose `choices` is an array that is not empty
/// and holds nothing but choices.
pub open spec fn has_completion_shape(tree: JsonTree) -> bool {
    match tree.member("choices"@) {
        Some(JsonTree::Array(choices)) => {
            &&& choices.len() > 0
            &&& forall|i: int| 0 <= i < choices.len() ==> has_choice_shape(#[trigger] choices[i])
        },
        _ => false,
    }
}

/// A payload identified by a string `id` that names its `model` by a
/// string.
pub open spec fn is_identified(tree: JsonTree) -> bool {
    &&& tree.member("id"@) matches Some(JsonTree::Text(_))
    &&& tree.member("model"@) matches Some(JsonTree::Text(_))
}

/// In mock mode the answer is the same fixed text for every question, and
/// the payload beside it carries the id `mock-123` and the configured
/// model.
pub proof fn lemma_mock_answer_is_fixed(model: Seq<char>)
    ensures
        mock_result(model).answer_text == "This is a mock response for testing purposes."@,
        mock_result(model).raw_payload == Some(mock_tree(model)),
        mock_tree(model).member("id"@) == Some(JsonTree::Text("mock-123"@)),
        mock_tree(model).member("model"@) == Some(JsonTree::Text(model)),
{
    lemma_mock_keys_differ();
}

/// The canned message reads as a message of the assistant with the canned
/// text.
pub proof fn lemma_mock_message_reads_back()
    ensures
        message_of_tree(mock_message_tree()) == Some(
            ChatMessageView { role: Role::Assistant, content: MOCK_ANSWER@ },
        ),
{
    lemma_mock_keys_differ();
    lemma_role_text_round_trip(Role::Assistant);
}

/// The mock payload is an identified completion, and read as a provider's
/// payload it yields the very answer that mock mode gives.
pub proof fn lemma_mock_payload_is_a_completion(model: Seq<char>)
    ensures
        has_completion_shape(mock_tree(model)),
        is_identified(mock_tree(model)),
        interpret_tree(mock_tree(model)) == Ok::<AskResultView, ProviderErrorView>(
            mock_result(model),
        ),
{
    lemma_mock_keys_differ();
    lemma_mock_message_reads_back();
    let trees = seq![mock_choice_tree()];
    assert(mock_tree(model).member("choices"@) == Some(JsonTree::Array(trees)));
    assert(choice_of_tree(trees[0]) is Some);
    assert(choices_of_trees(trees).len() == 1);
    assert(choices_of_trees(trees)[0].message.content == MOCK_ANSWER@);
    assert(has_choice_shape(trees[0]));
}

/// Every payload that is answered from is a completion: the mock payload
/// and the payloads accepted from the provider have one shape.
pub proof fn lemma_accepted_payload_is_a_completion(tree: JsonTree)
    requires
        interpret_tree(tree) is Ok,
    ensures
        has_completion_shape(tree),
{
    let choices = tree.member("choices"@)->Some_0->Array_0;
    assert forall|i: int| 0 <= i < choices.len() implies has_choice_shape(
        #[trigger] choices[i],
    ) by {
        assert(choice_of_tree(choices[i]) is Some);
    }
}

/// A successful response whose body is a completion is answered with the
/// content of the first choice's message, character for character, and
/// with the parsed body as payload.
pub proof fn lemma_answer_is_first_content(
    status: u16,
    body: Seq<char>,
    tree: JsonTree,
    choices: Seq<JsonTree>,
    message: JsonTree,
    content: Seq<char>,
)
    requires
        is_success(status),
        parsed_document(body) == Ok::<JsonTree, Seq<char>>(tree),
        response_of_tree(tree) is Some,
        tree.member("choices"@) == Some(JsonTree::Array(choices)),
        choices.len() > 0,
        choices[0].member("message"@) == Some(message),
        message.member("content"@) == Some(JsonTree::Text(content)),
    ensures
        interpret_response(status, body) == Ok::<AskResultView, ProviderErrorView>(
            AskResultView { answer_text: content, raw_payload: Some(tree) },
        ),
{
    assert(choice_of_tree(choices[0]) is Some);
}

/// A successful response whose body is a completion without choices is an
/// empty response: neither an answer nor any other error.
pub proof fn lemma_no_choices_is_empty_response(status: u16, body: Seq<char>, tree: JsonTree)
    requires
        is_success(status),
        parsed_document(body) == Ok::<JsonTree, Seq<char>>(tree),
        tree.member("choices"@) == Some(JsonTree::Array(Seq::<JsonTree>::empty())),
    ensures
        interpret_response(status, body) == Err::<AskResultView, ProviderErrorView>(
            ProviderErrorView::EmptyResponse,
        ),
{
}

/// A status outside 200 to 299 is reported with that status, whatever the
/// body holds.
pub proof fn lemma_failed_status_is_reported(status: u16, body: Seq<char>)
    requires
        status < 200 || status > 299,
    ensures
        interpret_response(status, body) == Err::<AskResultView, ProviderErrorView>(
            ProviderErrorView::HttpStatus(status),
        ),
{
}

/// A successful response whose body is no JSON document is a parse error
/// that carries the parser's description.
pub proof fn lemma_malformed_body_is_parse_error(status: u16, body: Seq<char>, fault: Seq<char>)
    requires
        is_success(status),
        parsed_document(body) == Err::<JsonTree, Seq<char>>(fault),
    ensures
        interpret_response(status, body) == Err::<AskResultView, ProviderErrorView>(
            ProviderErrorView::Parse(fault),
        ),
{
}

/// A successful response whose body is a JSON document without a member
/// `choices` is a schema error.
pub proof fn lemma_missing_choices_is_schema_error(status: u16, body: Seq<char>, tree: JsonTree)
    requires
        is_success(status),
        parsed_document(body) == Ok::<JsonTree, Seq<char>>(tree),
        tree.member("choices"@) is None,
    ensures
        interpret_response(status, body) == Err::<AskResultView, ProviderErrorView>(
            ProviderErrorView::Schema,
        ),
{
}

/// An answer to a reply comes only from a response that arrived in full
/// with a success status, and the payload beside it is the document that
/// the body parses to, whole.
pub proof fn lemma_payload_is_the_parsed_body(reply: ReplyView)
    ensures
        match interpret_reply(reply) {
            Ok(result) => {
                &&& reply matches ReplyView::Received { status, body }
                &&& is_success(status)
                &&& parsed_document(body) matches Ok(tree)
                &&& result.raw_payload == Some(tree)
            },
            Err(_) => true,
        },
{
}

} // verus!
