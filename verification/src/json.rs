//! JSON documents as trees of plain values, and the two calls into
//! `serde_json` that read and write them.

use crate::text::same_text;
use vstd::prelude::*;

verus! {

/// A JSON document.
#[derive(Debug, PartialEq, Eq)]
pub enum JsonValue {
    Null,
    Bool(bool),
    /// A number that is an integer of 64 bits.
    Integer(i64),
    /// Any other number: a fraction, or an integer beyond 64 bits.
    OtherNumber,
    Text(String),
    List(Vec<JsonValue>),
    /// The members of an object, each a name and a value.
    Record(Vec<(String, JsonValue)>),
}

/// What a `JsonValue` stands for.
pub enum JsonTree {
    Null,
    Bool(bool),
    Integer(i64),
    OtherNumber,
    Text(Seq<char>),
    List(Seq<JsonTree>),
    Record(Seq<(Seq<char>, JsonTree)>),
}

/// The tree that `value` stands for.
pub open spec fn tree_of(value: JsonValue) -> JsonTree
    decreases value,
{
    match value {
        JsonValue::Null => JsonTree::Null,
        JsonValue::Bool(b) => JsonTree::Bool(b),
        JsonValue::Integer(n) => JsonTree::Integer(n),
        JsonValue::OtherNumber => JsonTree::OtherNumber,
        JsonValue::Text(s) => JsonTree::Text(s@),
        JsonValue::List(items) => JsonTree::List(
            Seq::new(
                items@.len(),
                |i: int|
                    if 0 <= i < items@.len() {
                        tree_of(items@[i])
                    } else {
                        JsonTree::Null
                    },
            ),
        ),
        JsonValue::Record(members) => JsonTree::Record(
            Seq::new(
                members@.len(),
                |i: int|
                    if 0 <= i < members@.len() {
                        (members@[i].0@, tree_of(members@[i].1))
                    } else {
                        (Seq::empty(), JsonTree::Null)
                    },
            ),
        ),
    }
}

impl View for JsonValue {
    type V = JsonTree;

    open spec fn view(&self) -> JsonTree {
        tree_of(*self)
    }
}

/// The members of a record as names and trees.
pub open spec fn member_views(members: Seq<(String, JsonValue)>) -> Seq<(Seq<char>, JsonTree)> {
    Seq::new(members.len(), |i: int| (members[i].0@, members[i].1@))
}

/// The value of the first member called `name`, if there is one.
pub open spec fn find_member(members: Seq<(Seq<char>, JsonTree)>, name: Seq<char>) -> Option<
    JsonTree,
>
    decreases members.len(),
{
    if members.len() == 0 {
        None
    } else if members[0].0 == name {
        Some(members[0].1)
    } else {
        find_member(members.drop_first(), name)
    }
}

/// The member `name` of a record; `Null` where `tree` is no record or has no
/// such member.
pub open spec fn member(tree: JsonTree, name: Seq<char>) -> JsonTree {
    match tree {
        JsonTree::Record(members) => match find_member(members, name) {
            Some(value) => value,
            None => JsonTree::Null,
        },
        _ => JsonTree::Null,
    }
}

/// The text of a tree that is a string.
pub open spec fn as_text(tree: JsonTree) -> Option<Seq<char>> {
    match tree {
        JsonTree::Text(s) => Some(s),
        _ => None,
    }
}

/// The value of a tree that is an integer of 64 bits.
pub open spec fn as_integer(tree: JsonTree) -> Option<i64> {
    match tree {
        JsonTree::Integer(n) => Some(n),
        _ => None,
    }
}

/// The items of a tree that is an array.
pub open spec fn as_list(tree: JsonTree) -> Option<Seq<JsonTree>> {
    match tree {
        JsonTree::List(items) => Some(items),
        _ => None,
    }
}

/// The strings among `items`, in their order.
pub open spec fn texts_among(items: Seq<JsonTree>) -> Seq<Seq<char>>
    decreases items.len(),
{
    if items.len() == 0 {
        Seq::empty()
    } else {
        match items.last() {
            JsonTree::Text(s) => texts_among(items.drop_last()).push(s),
            _ => texts_among(items.drop_last()),
        }
    }
}

/// Each text as a JSON string.
pub open spec fn text_items(texts: Seq<Seq<char>>) -> Seq<JsonTree> {
    Seq::new(texts.len(), |i: int| JsonTree::Text(texts[i]))
}

impl JsonValue {
    /// The JSON string that holds `s`.
    pub fn text(s: &str) -> (value: JsonValue)
        ensures
            value@ == JsonTree::Text(s@),
    {
        JsonValue::Text(s.to_owned())
    }

    /// The JSON array of the strings `texts`.
    pub fn text_list(texts: &Vec<String>) -> (value: JsonValue)
        ensures
            value@ == JsonTree::List(text_items(texts.deep_view())),
    {
        let mut items: Vec<JsonValue> = Vec::new();
        let mut i: usize = 0;
        while i < texts.len()
            invariant
                i <= texts.len(),
                items.len() == i,
                forall|j: int| 0 <= j < i ==> (#[trigger] items@[j])@ == JsonTree::Text(texts@[j]@),
            decreases texts.len() - i,
        {
            items.push(JsonValue::text(texts[i].as_str()));
            i += 1;
        }
        let value = JsonValue::List(items);
        assert(value@->List_0 =~= text_items(texts.deep_view()));
        value
    }

    /// The JSON object with the members `members`.
    pub fn record(members: Vec<(String, JsonValue)>) -> (value: JsonValue)
        ensures
            value@ == JsonTree::Record(member_views(members@)),
    {
        let value = JsonValue::Record(members);
        assert(value@->Record_0 =~= member_views(members@));
        value
    }

    /// The member `name` of a record.
    pub fn member(&self, name: &str) -> (found: Option<&JsonValue>)
        ensures
            match found {
                Some(value) => self@ is Record && find_member(self@->Record_0, name@) == Some(
                    value@,
                ),
                None => member(self@, name@) == JsonTree::Null && (self@ is Record ==> find_member(
                    self@->Record_0,
                    name@,
                ) is None),
            },
    {
        match self {
            JsonValue::Record(members) => {
                let ghost all = self@->Record_0;
                let mut i: usize = 0;
                assert(all.skip(0) == all);
                while i < members.len()
                    invariant
                        i <= members.len(),
                        self@ == JsonTree::Record(all),
                        all.len() == members.len(),
                        forall|j: int|
                            0 <= j < all.len() ==> all[j] == (
                                #[trigger] members@[j].0@,
                                members@[j].1@,
                            ),
                        find_member(all, name@) == find_member(all.skip(i as int), name@),
                    decreases members.len() - i,
                {
                    assert(all.skip(i as int)[0] == all[i as int]);
                    assert(all.skip(i as int).drop_first() == all.skip(i + 1));
                    assert(all[i as int] == (members@[i as int].0@, members@[i as int].1@));
                    if same_text(members[i].0.as_str(), name) {
                        return Some(&members[i].1);
                    }
                    i += 1;
                }
                None
            },
            _ => None,
        }
    }

    /// The text of a string.
    pub fn as_text(&self) -> (text: Option<&String>)
        ensures
            match text {
                Some(s) => as_text(self@) == Some(s@),
                None => as_text(self@) is None,
            },
    {
        match self {
            JsonValue::Text(s) => Some(s),
            _ => None,
        }
    }

    /// The value of an integer of 64 bits.
    pub fn as_integer(&self) -> (n: Option<i64>)
        ensures
            n == as_integer(self@),
    {
        match self {
            JsonValue::Integer(n) => Some(*n),
            _ => None,
        }
    }

    /// The strings among the items of an array, in their order.
    pub fn texts(&self) -> (texts: Option<Vec<String>>)
        ensures
            match texts {
                Some(list) => as_list(self@) is Some && list.deep_view() == texts_among(
                    as_list(self@)->0,
                ),
                None => as_list(self@) is None,
            },
    {
        match self {
            JsonValue::List(items) => {
                let ghost all = self@->List_0;
                let mut list: Vec<String> = Vec::new();
                let mut i: usize = 0;
                assert(list.deep_view() == Seq::<Seq<char>>::empty());
                while i < items.len()
                    invariant
                        i <= items.len(),
                        self@ == JsonTree::List(all),
                        all.len() == items.len(),
                        forall|j: int| 0 <= j < all.len() ==> all[j] == #[trigger] items@[j]@,
                        list.deep_view() == texts_among(all.take(i as int)),
                    decreases items.len() - i,
                {
                    assert(all.take(i + 1).drop_last() == all.take(i as int));
                    assert(all.take(i + 1).last() == items@[i as int]@);
                    let ghost before = list.deep_view();
                    match &items[i] {
                        JsonValue::Text(s) => {
                            list.push(s.clone());
                            assert(list.deep_view() == before.push(s@));
                        },
                        _ => {},
                    }
                    i += 1;
                }
                assert(all.take(i as int) == all);
                Some(list)
            },
            _ => None,
        }
    }
}

/// What `serde_json::from_str` makes of a text: the document it holds, or,
/// where the text is no single JSON document, the message of the error.
pub uninterp spec fn json_parse(text: Seq<char>) -> Result<JsonTree, Seq<char>>;

/// The compact text that `serde_json` writes for a document.
pub uninterp spec fn json_text(tree: JsonTree) -> Seq<char>;

/// `serde_json::Value`, which only passes between the calls into `serde_json`.
#[verifier::external_type_specification]
#[verifier::external_body]
pub struct ExValue(serde_json::Value);

/// A `serde_json::Value` as a tree of this crate, variant for variant. A
/// number becomes what `Number::as_i64` gives for it.
#[verifier::external_body]
fn from_serde(value: serde_json::Value) -> JsonValue {
    match value {
        serde_json::Value::Null => JsonValue::Null,
        serde_json::Value::Bool(b) => JsonValue::Bool(b),
        serde_json::Value::Number(n) => n.as_i64().map_or(JsonValue::OtherNumber, JsonValue::Integer),
        serde_json::Value::String(s) => JsonValue::Text(s),
        serde_json::Value::Array(a) => JsonValue::List(a.into_iter().map(from_serde).collect()),
        serde_json::Value::Object(m) => JsonValue::Record(
            m.into_iter().map(|(k, v)| (k, from_serde(v))).collect(),
        ),
    }
}

/// A tree of this crate as a `serde_json::Value`, variant for variant. A
/// number that is no integer of 64 bits becomes `Null`, as `serde_json`
/// writes a number that JSON cannot hold.
#[verifier::external_body]
fn to_serde(value: &JsonValue) -> serde_json::Value {
    match value {
        JsonValue::Null | JsonValue::OtherNumber => serde_json::Value::Null,
        JsonValue::Bool(b) => serde_json::Value::Bool(*b),
        JsonValue::Integer(n) => serde_json::Value::Number((*n).into()),
        JsonValue::Text(s) => serde_json::Value::String(s.clone()),
        JsonValue::List(a) => serde_json::Value::Array(a.iter().map(to_serde).collect()),
        JsonValue::Record(m) => serde_json::Value::Object(
            m.iter().map(|(k, v)| (k.clone(), to_serde(v))).collect(),
        ),
    }
}

/// `serde_json::from_str` for a `serde_json::Value`. The result depends on
/// the text alone: the document, or the error's message, as its `Display`
/// writes it, where the text is no single JSON document.
#[verifier::external_body]
pub(crate) fn parse_json(text: &str) -> (parsed: Result<JsonValue, String>)
    ensures
        match parsed {
            Ok(value) => json_parse(text@) == Ok::<JsonTree, Seq<char>>(value@),
            Err(message) => json_parse(text@) == Err::<JsonTree, Seq<char>>(message@),
        },
{
    match serde_json::from_str::<serde_json::Value>(text) {
        Ok(value) => Ok(from_serde(value)),
        Err(error) => Err(error.to_string()),
    }
}

/// `to_string` of a `serde_json::Value`: the compact form, which depends on
/// the document alone. It holds no line break: the writer puts none between
/// the parts, and inside a string it writes one as a backslash and `n`.
#[verifier::external_body]
pub(crate) fn write_json(value: &JsonValue) -> (text: String)
    ensures
        text@ == json_text(value@),
        !text@.contains('\n'),
{
    to_serde(value).to_string()
}

} // verus!
