//! JSON documents as plain data, and the reading of JSON text.

use vstd::prelude::*;
use vstd::string::*;
use crate::text::same_text;

verus! {

/// A JSON document.
#[derive(Debug, PartialEq)]
pub enum Json {
    Null,
    Bool(bool),
    /// A number, held as the text that prints it.
    Number(String),
    Text(String),
    Array(Vec<Json>),
    /// The members of an object, each a key and the value under it.
    Object(Vec<(String, Json)>),
}

/// `serde_json::Value`, which is handed from the parser to `json_from_value` and never
/// looked into on the way.
#[verifier::external_type_specification]
#[verifier::external_body]
pub struct ExValue(serde_json::Value);

/// What reading `text` as JSON gives: the document, or the parser's words on why the
/// text is none.
pub uninterp spec fn json_of_text(text: Seq<char>) -> Result<Json, Seq<char>>;

/// The document that a `serde_json::Value` holds.
pub uninterp spec fn json_of_value(value: serde_json::Value) -> Json;

/// Calls `serde_json::from_str` for a `serde_json::Value`. The outcome depends on the
/// text alone, so it has a name: `json_of_text`. An error is handed on as the text that
/// its `Display` prints.
#[verifier::external_body]
fn value_from_text(text: &str) -> (parsed: Result<serde_json::Value, String>)
    ensures
        match parsed {
            Ok(value) => json_of_text(text@) == Ok::<Json, Seq<char>>(json_of_value(value)),
            Err(message) => json_of_text(text@) == Err::<Json, Seq<char>>(message@),
        },
{
    match serde_json::from_str::<serde_json::Value>(text) {
        Ok(value) => Ok(value),
        Err(error) => Err(error.to_string()),
    }
}

/// Moves a `serde_json::Value` into a `Json`, variant for variant: a number as the text
/// that its `Display` prints, the members of an object in the order in which its map
/// hands them out. The result depends on the value alone, so it has a name:
/// `json_of_value`.
#[verifier::external_body]
fn json_from_value(value: serde_json::Value) -> (json: Json)
    ensures
        json == json_of_value(value),
{
    match value {
        serde_json::Value::Null => Json::Null,
        serde_json::Value::Bool(flag) => Json::Bool(flag),
        serde_json::Value::Number(number) => Json::Number(number.to_string()),
        serde_json::Value::String(text) => Json::Text(text),
        serde_json::Value::Array(items) => Json::Array(items.into_iter().map(json_from_value).collect()),
        serde_json::Value::Object(members) => Json::Object(
            members.into_iter().map(|(key, item)| (key, json_from_value(item))).collect(),
        ),
    }
}

/// Reads `text` as JSON.
pub fn parse_json(text: &str) -> (parsed: Result<Json, String>)
    ensures
        match parsed {
            Ok(json) => json_of_text(text@) == Ok::<Json, Seq<char>>(json),
            Err(message) => json_of_text(text@) == Err::<Json, Seq<char>>(message@),
        },
{
    match value_from_text(text) {
        Ok(value) => Ok(json_from_value(value)),
        Err(message) => Err(message),
    }
}

/// Position of the first member under `key`; the number of members where none is.
pub open spec fn member_index(members: Seq<(String, Json)>, key: Seq<char>) -> nat
    decreases members.len(),
{
    if members.len() == 0 || members[0].0@ == key {
        0
    } else {
        1 + member_index(members.drop_first(), key)
    }
}

/// The value of the first member under `key`.
pub open spec fn member_of(members: Seq<(String, Json)>, key: Seq<char>) -> Option<Json> {
    let at = member_index(members, key) as int;
    if at < members.len() {
        Some(members[at].1)
    } else {
        None
    }
}

/// `member_index` told by what it counts: no member under `key` before it, and one at
/// it unless the members end there.
pub proof fn lemma_member_index(members: Seq<(String, Json)>, key: Seq<char>, n: int)
    requires
        0 <= n <= members.len(),
        forall|i: int| 0 <= i < n ==> members[i].0@ != key,
        n < members.len() ==> members[n].0@ == key,
    ensures
        member_index(members, key) == n,
    decreases members.len(),
{
    if n > 0 {
        let rest = members.drop_first();
        assert forall|i: int| 0 <= i < n - 1 implies rest[i].0@ != key by {
            assert(rest[i] == members[i + 1]);
        }
        lemma_member_index(rest, key, n - 1);
    }
}

/// What `member_index` counts: it lies within the members or right behind them, no
/// member before it stands under `key`, and the member at it does.
pub proof fn lemma_member_index_is_first(members: Seq<(String, Json)>, key: Seq<char>)
    ensures
        member_index(members, key) <= members.len(),
        forall|i: int| 0 <= i < member_index(members, key) ==> members[i].0@ != key,
        member_index(members, key) < members.len() ==> members[member_index(members, key) as int].0@
            == key,
    decreases members.len(),
{
    if members.len() > 0 && members[0].0@ != key {
        let rest = members.drop_first();
        lemma_member_index_is_first(rest, key);
        assert forall|i: int| 0 <= i < member_index(members, key) implies members[i].0@ != key by {
            if i > 0 {
                assert(members[i] == rest[i - 1]);
            }
        }
    }
}

/// A member put behind the others is found under its key unless one of them stands
/// under that key already, and changes nothing under any other key.
pub proof fn lemma_member_after_push(
    members: Seq<(String, Json)>,
    added: (String, Json),
    key: Seq<char>,
)
    ensures
        member_of(members.push(added), key) == if member_of(members, key) is Some {
            member_of(members, key)
        } else if added.0@ == key {
            Some(added.1)
        } else {
            None
        },
{
    let longer = members.push(added);
    let at = member_index(members, key) as int;
    lemma_member_index_is_first(members, key);
    if at < members.len() {
        lemma_member_index(longer, key, at);
    } else if added.0@ == key {
        lemma_member_index(longer, key, members.len() as int);
    } else {
        lemma_member_index(longer, key, longer.len() as int);
    }
}

/// Looks a member up by its key.
pub fn find_member<'a>(members: &'a Vec<(String, Json)>, key: &str) -> (found: Option<&'a Json>)
    ensures
        match found {
            Some(value) => member_of(members@, key@) == Some(*value),
            None => member_of(members@, key@) is None,
        },
{
    let mut at: usize = 0;
    while at < members.len()
        invariant
            at <= members.len(),
            forall|i: int| 0 <= i < at ==> members@[i].0@ != key@,
        decreases members.len() - at,
    {
        if same_text(members[at].0.as_str(), key) {
            proof {
                lemma_member_index(members@, key@, at as int);
            }
            return Some(&members[at].1);
        }
        at = at + 1;
    }
    proof {
        lemma_member_index(members@, key@, at as int);
    }
    None
}

} // verus!
