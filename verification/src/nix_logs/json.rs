//! JSON documents as plain values.
//!
//! `serde_json` reads the text; the document it hands back is copied into
//! [`JsonValue`], which the decoder can look into.

use vstd::prelude::*;

verus! {

/// `serde_json::Value`, a JSON document as `serde_json` holds it. Nothing is
/// seen of what is in it but through [`json_content`].
#[verifier::external_type_specification]
#[verifier::external_body]
pub struct ExJsonDocument(serde_json::Value);

/// `serde_json::Error`, the reason why a text is no JSON document. Nothing
/// is said of it.
#[verifier::external_type_specification]
#[verifier::external_body]
pub struct ExJsonError(serde_json::Error);

/// A JSON document.
///
/// A number keeps its value where it is an integer in the range of `i64`,
/// and is `Number(None)` otherwise. An object keeps its members as a list of
/// name and value.
#[derive(Debug, PartialEq, Eq)]
pub enum JsonValue {
    Null,
    Bool(bool),
    Number(Option<i64>),
    Text(String),
    Array(Vec<JsonValue>),
    Object(Vec<(String, JsonValue)>),
}

/// The mathematical model of a [`JsonValue`].
pub enum JsonView {
    Null,
    Bool(bool),
    Number(Option<i64>),
    Text(Seq<char>),
    Array(Seq<JsonView>),
    Object(Seq<(Seq<char>, JsonView)>),
}

impl JsonValue {
    /// The document as a mathematical value.
    pub open spec fn model(&self) -> JsonView
        decreases self,
    {
        match self {
            JsonValue::Null => JsonView::Null,
            JsonValue::Bool(b) => JsonView::Bool(*b),
            JsonValue::Number(n) => JsonView::Number(*n),
            JsonValue::Text(s) => JsonView::Text(s@),
            JsonValue::Array(items) => JsonView::Array(
                Seq::new(
                    items@.len(),
                    |i: int|
                        if 0 <= i < items.len() {
                            items[i].model()
                        } else {
                            JsonView::Null
                        },
                ),
            ),
            JsonValue::Object(members) => JsonView::Object(
                Seq::new(
                    members@.len(),
                    |i: int|
                        if 0 <= i < members.len() {
                            (members[i].0@, members[i].1.model())
                        } else {
                            (Seq::empty(), JsonView::Null)
                        },
                ),
            ),
        }
    }
}

impl View for JsonValue {
    type V = JsonView;

    open spec fn view(&self) -> JsonView {
        self.model()
    }
}

/// The value of the first member called `name`, if there is one.
pub open spec fn first_member(members: Seq<(Seq<char>, JsonView)>, name: Seq<char>) -> Option<
    JsonView,
>
    decreases members.len(),
{
    if members.len() == 0 {
        None
    } else if members[0].0 == name {
        Some(members[0].1)
    } else {
        first_member(members.drop_first(), name)
    }
}

impl JsonView {
    /// The member `name` of an object; `None` for anything but an object that has it.
    pub open spec fn member(self, name: Seq<char>) -> Option<JsonView> {
        match self {
            JsonView::Object(members) => first_member(members, name),
            _ => None,
        }
    }

    /// The characters of a string.
    pub open spec fn text(self) -> Option<Seq<char>> {
        match self {
            JsonView::Text(s) => Some(s),
            _ => None,
        }
    }

    /// The value of an integer in the range of `i64`.
    pub open spec fn integer(self) -> Option<i64> {
        match self {
            JsonView::Number(n) => n,
            _ => None,
        }
    }

    /// The items of an array.
    pub open spec fn items(self) -> Option<Seq<JsonView>> {
        match self {
            JsonView::Array(items) => Some(items),
            _ => None,
        }
    }
}

/// The document that `serde_json::from_str` reads from `text`, or `None`
/// where it reports an error.
pub uninterp spec fn parsed_json(text: Seq<char>) -> Option<JsonView>;

/// What a document of `serde_json` holds.
pub uninterp spec fn json_content(document: serde_json::Value) -> JsonView;

/// Calls `serde_json::from_str` for a `serde_json::Value`. The contract
/// names the outcome: the same text always gives the same document or an
/// error, and the text alone decides which.
#[verifier::external_body]
fn json_from_str(text: &str) -> (out: Result<serde_json::Value, serde_json::Error>)
    ensures
        out matches Ok(document) ==> parsed_json(text@) == Some(json_content(document)),
        out is Err ==> parsed_json(text@) is None,
{
    serde_json::from_str::<serde_json::Value>(text)
}

/// Copies a `serde_json::Value` into a [`JsonValue`], variant by variant; a
/// number goes through `serde_json::Number::as_i64`, and the members of an
/// object come in the order in which `serde_json::Map::iter` hands them out.
#[verifier::external_body]
fn json_lift(document: &serde_json::Value) -> (out: JsonValue)
    ensures
        out@ == json_content(*document),
{
    match document {
        serde_json::Value::Null => JsonValue::Null,
        serde_json::Value::Bool(b) => JsonValue::Bool(*b),
        serde_json::Value::Number(n) => JsonValue::Number(n.as_i64()),
        serde_json::Value::String(s) => JsonValue::Text(s.clone()),
        serde_json::Value::Array(items) => JsonValue::Array(items.iter().map(json_lift).collect()),
        serde_json::Value::Object(members) => JsonValue::Object(
            members.iter().map(|(name, value)| (name.clone(), json_lift(value))).collect(),
        ),
    }
}

impl JsonValue {
    /// Reads a JSON text. `None` where the text is no JSON document.
    pub fn from_text(text: &str) -> (out: Option<JsonValue>)
        ensures
            out matches Some(value) ==> parsed_json(text@) == Some(value@),
            out is None ==> parsed_json(text@) is None,
    {
        match json_from_str(text) {
            Ok(document) => Some(json_lift(&document)),
            Err(_) => None,
        }
    }

    /// The member `name` of an object.
    pub fn member(&self, name: &str) -> (out: Option<&JsonValue>)
        ensures
            match out {
                Some(value) => self@.member(name@) == Some(value@),
                None => self@.member(name@) is None,
            },
    {
        match self {
            JsonValue::Object(members) => {
                let wanted = name.to_owned();
                let mut i: usize = 0;
                proof {
                    let all = self@->Object_0;
                    assert(all.skip(0) =~= all);
                }
                while i < members.len()
                    invariant
                        i <= members.len(),
                        wanted@ == name@,
                        self@ matches JsonView::Object(all) && all.len() == members.len()
                            && first_member(all, name@) == first_member(
                            all.skip(i as int),
                            name@,
                        ) && (forall|j: int|
                            0 <= j < members.len() ==> all[j] == (members[j].0@, members[j].1@)),
                    decreases members.len() - i,
                {
                    proof {
                        let all = self@->Object_0;
                        assert(all.skip(i as int).drop_first() == all.skip(i as int + 1));
                    }
                    if members[i].0 == wanted {
                        return Some(&members[i].1);
                    }
                    i += 1;
                }
                None
            },
            _ => None,
        }
    }

    /// The characters of a string.
    pub fn as_text(&self) -> (out: Option<&String>)
        ensures
            match out {
                Some(s) => self@.text() == Some(s@),
                None => self@.text() is None,
            },
    {
        match self {
            JsonValue::Text(s) => Some(s),
            _ => None,
        }
    }

    /// The value of an integer in the range of `i64`.
    pub fn as_integer(&self) -> (out: Option<i64>)
        ensures
            out == self@.integer(),
    {
        match self {
            JsonValue::Number(n) => *n,
            _ => None,
        }
    }

    /// The items of an array.
    pub fn as_items(&self) -> (out: Option<&Vec<JsonValue>>)
        ensures
            match out {
                Some(items) => self@.items() == Some(items_view(items@)),
                None => self@.items() is None,
            },
    {
        match self {
            JsonValue::Array(items) => {
                assert(self@->Array_0 =~= items_view(items@));
                Some(items)
            },
            _ => None,
        }
    }
}

/// The views of a list of documents.
pub open spec fn items_view(items: Seq<JsonValue>) -> Seq<JsonView> {
    Seq::new(items.len(), |i: int| items[i]@)
}

} // verus!
