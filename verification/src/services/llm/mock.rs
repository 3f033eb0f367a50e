//! The canned completion of mock mode.
//!
//! The payload has the shape of a real completion, so that nothing
//! downstream can tell the two apart by structure.

use vstd::prelude::*;
use crate::json::{
    array_value, fields_of, json_tree, object_value, text_value, trees_of, JsonTree,
};

verus! {

/// The answer given to every question in mock mode.
pub const MOCK_ANSWER: &'static str = "This is a mock response for testing purposes.";

/// The message of the canned completion.
pub open spec fn mock_message_tree() -> JsonTree {
    JsonTree::Object(
        Map::empty().insert("role"@, JsonTree::Text("assistant"@)).insert(
            "content"@,
            JsonTree::Text(MOCK_ANSWER@),
        ),
    )
}

/// The only choice of the canned completion.
pub open spec fn mock_choice_tree() -> JsonTree {
    JsonTree::Object(Map::empty().insert("message"@, mock_message_tree()))
}

/// The canned completion for a model.
pub open spec fn mock_tree(model: Seq<char>) -> JsonTree {
    JsonTree::Object(
        Map::empty().insert("id"@, JsonTree::Text("mock-123"@)).insert(
            "object"@,
            JsonTree::Text("chat.completion"@),
        ).insert("model"@, JsonTree::Text(model)).insert(
            "choices"@,
            JsonTree::Array(seq![mock_choice_tree()]),
        ),
    )
}

proof fn lemma_fields_of_push(
    entries: Seq<(String, serde_json::Value)>,
    entry: (String, serde_json::Value),
)
    ensures
        fields_of(entries.push(entry)) == fields_of(entries).insert(entry.0@, json_tree(entry.1)),
{
    assert(entries.push(entry).drop_last() =~= entries);
}

proof fn lemma_fields_of_one(a: (String, serde_json::Value))
    ensures
        fields_of(seq![a]) == Map::<Seq<char>, JsonTree>::empty().insert(a.0@, json_tree(a.1)),
{
    let none = Seq::<(String, serde_json::Value)>::empty();
    lemma_fields_of_push(none, a);
    assert(seq![a] =~= none.push(a));
}

proof fn lemma_fields_of_two(a: (String, serde_json::Value), b: (String, serde_json::Value))
    ensures
        fields_of(seq![a, b]) == Map::<Seq<char>, JsonTree>::empty().insert(
            a.0@,
            json_tree(a.1),
        ).insert(b.0@, json_tree(b.1)),
{
    lemma_fields_of_one(a);
    lemma_fields_of_push(seq![a], b);
    assert(seq![a, b] =~= seq![a].push(b));
}

proof fn lemma_fields_of_four(
    a: (String, serde_json::Value),
    b: (String, serde_json::Value),
    c: (String, serde_json::Value),
    d: (String, serde_json::Value),
)
    ensures
        fields_of(seq![a, b, c, d]) == Map::<Seq<char>, JsonTree>::empty().insert(
            a.0@,
            json_tree(a.1),
        ).insert(b.0@, json_tree(b.1)).insert(c.0@, json_tree(c.1)).insert(d.0@, json_tree(d.1)),
{
    lemma_fields_of_two(a, b);
    lemma_fields_of_push(seq![a, b], c);
    assert(seq![a, b, c] =~= seq![a, b].push(c));
    lemma_fields_of_push(seq![a, b, c], d);
    assert(seq![a, b, c, d] =~= seq![a, b, c].push(d));
}

/// The member keys of the canned completion each have a length of their
/// own, and so have those of its message.
pub proof fn lemma_mock_keys_differ()
    ensures
        "id"@.len() == 2,
        "object"@.len() == 6,
        "model"@.len() == 5,
        "choices"@.len() == 7,
        "role"@.len() == 4,
        "content"@.len() == 7,
        "role"@ != "content"@,
{
    reveal_strlit("id");
    reveal_strlit("object");
    reveal_strlit("model");
    reveal_strlit("choices");
    reveal_strlit("role");
    reveal_strlit("content");
}

fn field(key: &str, value: serde_json::Value) -> (entry: (String, serde_json::Value))
    ensures
        entry.0@ == key@,
        entry.1 == value,
{
    (key.to_owned(), value)
}

/// Builds the canned completion for a model.
pub fn mock_payload(model: &str) -> (payload: serde_json::Value)
    ensures
        json_tree(payload) == mock_tree(model@),
{
    proof {
        lemma_mock_keys_differ();
    }
    let mut message_fields: Vec<(String, serde_json::Value)> = Vec::new();
    message_fields.push(field("role", text_value("assistant".to_owned())));
    message_fields.push(field("content", text_value(MOCK_ANSWER.to_owned())));
    proof {
        lemma_fields_of_two(message_fields@[0], message_fields@[1]);
        assert(message_fields@ =~= seq![message_fields@[0], message_fields@[1]]);
    }
    let message = object_value(message_fields);

    let mut choice_fields: Vec<(String, serde_json::Value)> = Vec::new();
    choice_fields.push(field("message", message));
    proof {
        lemma_fields_of_one(choice_fields@[0]);
        assert(choice_fields@ =~= seq![choice_fields@[0]]);
    }
    let choice = object_value(choice_fields);

    let mut choices: Vec<serde_json::Value> = Vec::new();
    choices.push(choice);
    assert(trees_of(choices@) =~= seq![mock_choice_tree()]);
    let choices_value = array_value(choices);

    let mut fields: Vec<(String, serde_json::Value)> = Vec::new();
    fields.push(field("id", text_value("mock-123".to_owned())));
    fields.push(field("object", text_value("chat.completion".to_owned())));
    fields.push(field("model", text_value(model.to_owned())));
    fields.push(field("choices", choices_value));
    proof {
        lemma_fields_of_four(fields@[0], fields@[1], fields@[2], fields@[3]);
        assert(fields@ =~= seq![fields@[0], fields@[1], fields@[2], fields@[3]]);
    }
    object_value(fields)
}

} // verus!
