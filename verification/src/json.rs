//! JSON documents as the transport sees them, and their text form.

use crate::text::str_eq;
use miniserde::json::{Number, Object, Value};
use vstd::prelude::*;
use vstd::string::StringExecFns;
use vstd::string::StringSliceAdditionalSpecFns;
use vstd::utf8::*;

verus! {

/// The mathematical model of a JSON document.
///
/// An object is a map from member names to values: the order in which its
/// members were written carries no meaning.
pub enum JsonValue {
    Null,
    Bool(bool),
    Unsigned(u64),
    Signed(i64),
    Text(Seq<char>),
    Array(Seq<JsonValue>),
    Object(Map<Seq<char>, JsonValue>),
}

/// A JSON document held in memory.
///
/// A number is an integer, written without fraction or exponent: a
/// non-negative one is `Unsigned`, a negative one `Signed`. Numbers of any
/// other form are outside this model. An object lists its members; where a
/// name occurs more than once, the last occurrence counts.
#[derive(Debug, PartialEq, Eq)]
pub enum Json {
    Null,
    Bool(bool),
    Unsigned(u64),
    Signed(i64),
    Text(String),
    Array(Vec<Json>),
    Object(Vec<(String, Json)>),
}

/// The map that a list of members stands for: a later member replaces an
/// earlier one of the same name.
pub open spec fn object_model(members: Seq<(Seq<char>, JsonValue)>) -> Map<Seq<char>, JsonValue>
    decreases members.len(),
{
    if members.len() == 0 {
        Map::empty()
    } else {
        object_model(members.drop_last()).insert(members.last().0, members.last().1)
    }
}

/// The model of a document held in memory.
pub open spec fn json_model(doc: Json) -> JsonValue
    decreases doc,
{
    match doc {
        Json::Null => JsonValue::Null,
        Json::Bool(b) => JsonValue::Bool(b),
        Json::Unsigned(n) => JsonValue::Unsigned(n),
        Json::Signed(n) => JsonValue::Signed(n),
        Json::Text(s) => JsonValue::Text(s@),
        Json::Array(items) => JsonValue::Array(
            Seq::new(
                items.len() as nat,
                |i: int|
                    if 0 <= i < items.len() {
                        json_model(items[i])
                    } else {
                        JsonValue::Null
                    },
            ),
        ),
        Json::Object(members) => JsonValue::Object(object_model(member_models(members))),
    }
}

/// The members of an object in the order written, each by its model.
pub open spec fn member_models(members: Vec<(String, Json)>) -> Seq<(Seq<char>, JsonValue)>
    decreases members,
{
    Seq::new(
        members.len() as nat,
        |i: int|
            if 0 <= i < members.len() {
                (members[i].0@, json_model(members[i].1))
            } else {
                (Seq::empty(), JsonValue::Null)
            },
    )
}

impl View for Json {
    type V = JsonValue;

    open spec fn view(&self) -> JsonValue {
        json_model(*self)
    }
}

/// The members of an object, each by its model.
pub open spec fn members_view(members: Seq<(String, Json)>) -> Seq<(Seq<char>, JsonValue)> {
    Seq::new(members.len(), |i: int| (members[i].0@, members[i].1@))
}

/// The items of an array, each by its model.
pub open spec fn items_view(items: Seq<Json>) -> Seq<JsonValue> {
    Seq::new(items.len(), |i: int| items[i]@)
}

/// An object's model is the map of its members.
pub proof fn lemma_object_view(members: Vec<(String, Json)>)
    ensures
        Json::Object(members)@ == JsonValue::Object(object_model(members_view(members@))),
{
    assert(member_models(members) =~= members_view(members@));
}

/// An array's model is the sequence of its items.
pub proof fn lemma_array_view(items: Vec<Json>)
    ensures
        Json::Array(items)@ == JsonValue::Array(items_view(items@)),
{
    let whole = Json::Array(items)@;
    assert(whole->Array_0 =~= items_view(items@));
}

/// A name that no member carries is not in the map.
pub proof fn lemma_object_model_absent(members: Seq<(Seq<char>, JsonValue)>, name: Seq<char>)
    requires
        forall|i: int| 0 <= i < members.len() ==> members[i].0 != name,
    ensures
        !object_model(members).contains_key(name),
    decreases members.len(),
{
    if members.len() > 0 {
        lemma_object_model_absent(members.drop_last(), name);
    }
}

/// The map gives a name the value of the last member that carries it.
pub proof fn lemma_object_model_last(
    members: Seq<(Seq<char>, JsonValue)>,
    name: Seq<char>,
    at: int,
)
    requires
        0 <= at < members.len(),
        members[at].0 == name,
        forall|i: int| at < i < members.len() ==> members[i].0 != name,
    ensures
        object_model(members).contains_key(name),
        object_model(members)[name] == members[at].1,
    decreases members.len(),
{
    if at < members.len() - 1 {
        lemma_object_model_last(members.drop_last(), name, at);
    }
}

/// The place of the last member called `name`, if there is one.
pub fn find_last(members: &Vec<(String, Json)>, name: &str) -> (place: Option<usize>)
    ensures
        match place {
            Some(at) => at < members.len() && members@[at as int].0@ == name@
                && object_model(members_view(members@)).contains_key(name@)
                && object_model(members_view(members@))[name@] == members@[at as int].1@,
            None => !object_model(members_view(members@)).contains_key(name@),
        },
{
    let ghost model = members_view(members@);
    let mut i: usize = members.len();
    while i > 0
        invariant
            i <= members.len(),
            model == members_view(members@),
            forall|j: int| i <= j < members.len() ==> model[j].0 != name@,
        decreases i,
    {
        i = i - 1;
        if str_eq(members[i].0.as_str(), name) {
            proof {
                lemma_object_model_last(model, name@, i as int);
            }
            return Some(i);
        }
    }
    proof {
        lemma_object_model_absent(model, name@);
    }
    None
}

/// Adds a member at the end of a list of members, where it replaces any
/// member of the same name.
pub fn put(members: &mut Vec<(String, Json)>, name: &str, value: Json)
    ensures
        object_model(members_view(final(members)@)) == object_model(
            members_view(old(members)@),
        ).insert(name@, value@),
{
    members.push((String::from_str(name), value));
    assert(members_view(members@).drop_last() =~= members_view(old(members)@));
}

/// The object with the given members.
pub fn object(members: Vec<(String, Json)>) -> (doc: Json)
    ensures
        doc@ == JsonValue::Object(object_model(members_view(members@))),
{
    proof {
        lemma_object_view(members);
    }
    Json::Object(members)
}

/// The array with the given items.
pub fn array(items: Vec<Json>) -> (doc: Json)
    ensures
        doc@ == JsonValue::Array(items_view(items@)),
{
    proof {
        lemma_array_view(items);
    }
    Json::Array(items)
}

impl Json {
    /// The text of a JSON string, if this is one.
    pub fn as_str(&self) -> (r: Option<&str>)
        ensures
            match r {
                Some(s) => self@ == JsonValue::Text(s@),
                None => !(self@ is Text),
            },
    {
        match self {
            Json::Text(s) => Some(s.as_str()),
            _ => None,
        }
    }

    /// A copy of this document.
    pub fn duplicate(&self) -> (copy: Json)
        ensures
            copy@ == self@,
        decreases self,
    {
        match self {
            Json::Null => Json::Null,
            Json::Bool(b) => Json::Bool(*b),
            Json::Unsigned(n) => Json::Unsigned(*n),
            Json::Signed(n) => Json::Signed(*n),
            Json::Text(s) => Json::Text(s.clone()),
            Json::Array(items) => {
                let mut copies: Vec<Json> = Vec::new();
                let mut i: usize = 0;
                while i < items.len()
                    invariant
                        i <= items.len(),
                        copies.len() == i,
                        *self == Json::Array(*items),
                        forall|j: int| 0 <= j < i ==> copies@[j]@ == items@[j]@,
                    decreases items.len() - i,
                {
                    proof {
                        vstd::std_specs::vec::axiom_vec_index_decreases(*items, i as int);
                        assert(decreases_to!(*self => self->Array_0));
                    }
                    copies.push(items[i].duplicate());
                    i = i + 1;
                }
                proof {
                    lemma_array_view(*items);
                    assert(items_view(copies@) =~= items_view(items@));
                }
                array(copies)
            },
            Json::Object(members) => {
                let mut copies: Vec<(String, Json)> = Vec::new();
                let mut i: usize = 0;
                while i < members.len()
                    invariant
                        i <= members.len(),
                        copies.len() == i,
                        *self == Json::Object(*members),
                        forall|j: int|
                            0 <= j < i ==> copies@[j].0@ == members@[j].0@ && copies@[j].1@
                                == members@[j].1@,
                    decreases members.len() - i,
                {
                    proof {
                        vstd::std_specs::vec::axiom_vec_index_decreases(*members, i as int);
                        assert(decreases_to!(*self => self->Object_0));
                    }
                    copies.push((members[i].0.clone(), members[i].1.duplicate()));
                    i = i + 1;
                }
                proof {
                    lemma_object_view(*members);
                    assert(members_view(copies@) =~= members_view(members@));
                }
                object(copies)
            },
        }
    }

    /// The items of a JSON array, if this is one.
    pub fn as_array(&self) -> (r: Option<&Vec<Json>>)
        ensures
            match r {
                Some(items) => self@ == JsonValue::Array(items_view(items@)),
                None => !(self@ is Array),
            },
    {
        match self {
            Json::Array(items) => {
                proof {
                    lemma_array_view(*items);
                }
                Some(items)
            },
            _ => None,
        }
    }

    /// The value of the member `name`, if this is an object that has one.
    pub fn get(&self, name: &str) -> (r: Option<&Json>)
        ensures
            match r {
                Some(value) => self@ is Object && self@->Object_0.contains_key(name@)
                    && value@ == self@->Object_0[name@],
                None => !(self@ is Object && self@->Object_0.contains_key(name@)),
            },
    {
        match self {
            Json::Object(members) => {
                proof {
                    lemma_object_view(*members);
                }
                match find_last(members, name) {
                    Some(at) => Some(&members[at].1),
                    None => None,
                }
            },
            _ => None,
        }
    }

    /// Gives up the document for the value of its member `name`, if it is
    /// an object that has one.
    pub fn into_member(self, name: &str) -> (r: Option<Json>)
        ensures
            match r {
                Some(value) => self@ is Object && self@->Object_0.contains_key(name@)
                    && value@ == self@->Object_0[name@],
                None => !(self@ is Object && self@->Object_0.contains_key(name@)),
            },
    {
        match self {
            Json::Object(members) => {
                proof {
                    lemma_object_view(members);
                }
                let mut members = members;
                match find_last(&members, name) {
                    Some(at) => {
                        let member = members.remove(at);
                        Some(member.1)
                    },
                    None => None,
                }
            },
            _ => None,
        }
    }
}

/// JSON values as `miniserde` holds them.
#[verifier::external_type_specification]
#[verifier::external_body]
pub struct ExValue(Value);

/// The document that a `miniserde` value holds, or `None` where it holds a
/// number that is not an integer, at any depth.
pub uninterp spec fn value_model(value: Value) -> Option<JsonValue>;

/// The JSON text that `miniserde` writes for a document.
pub uninterp spec fn json_text(doc: JsonValue) -> Seq<char>;

/// The document that `miniserde` reads from a text, or `None` where it
/// rejects the text or reads a number that is not an integer.
pub uninterp spec fn json_parse(text: Seq<char>) -> Option<JsonValue>;

/// Builds the `miniserde` value for a document, variant by variant.
///
/// Members enter the outside object through `BTreeMap::insert`, so that a
/// later member replaces an earlier one of the same name, as in
/// [`object_model`].
#[verifier::external_body]
fn to_outside(doc: &Json) -> (value: Value)
    ensures
        value_model(value) == Some(doc@),
{
    match doc {
        Json::Null => Value::Null,
        Json::Bool(b) => Value::Bool(*b),
        Json::Unsigned(n) => Value::Number(Number::U64(*n)),
        Json::Signed(n) => Value::Number(Number::I64(*n)),
        Json::Text(s) => Value::String(s.clone()),
        Json::Array(items) => Value::Array(items.iter().map(to_outside).collect()),
        Json::Object(members) => {
            let mut object = Object::new();
            members.iter().for_each(|m| { object.insert(m.0.clone(), to_outside(&m.1)); });
            Value::Object(object)
        },
    }
}

/// Takes a `miniserde` value apart into a document, variant by variant.
///
/// The outside object hands its members out once each, so the list that
/// comes back stands for the same map. A number that is not an integer has
/// no counterpart here, and neither has a value that holds one.
#[verifier::external_body]
fn from_outside(value: Value) -> (doc: Option<Json>)
    ensures
        match doc {
            Some(d) => value_model(value) == Some(d@),
            None => value_model(value) is None,
        },
{
    Some(match value {
        Value::Null => Json::Null,
        Value::Bool(b) => Json::Bool(b),
        Value::Number(Number::U64(n)) => Json::Unsigned(n),
        Value::Number(Number::I64(n)) => Json::Signed(n),
        Value::Number(Number::F64(_)) => return None,
        Value::String(s) => Json::Text(s),
        Value::Array(items) => Json::Array(items.into_iter().map(from_outside).collect::<Option<_>>()?),
        Value::Object(members) => Json::Object(
            members.into_iter().map(|(name, v)| Some((name, from_outside(v)?))).collect::<Option<_>>()?,
        ),
    })
}

/// Writes a value as JSON text with `miniserde::json::to_string`.
///
/// The text is named, not described. One fact about it is stated: its
/// UTF-8 bytes hold no zero byte, because the serializer writes every byte
/// below 0x20 of a string or a member name as an escape sequence and
/// everything else it writes is printable.
#[verifier::external_body]
fn render(value: &Value) -> (text: String)
    ensures
        value_model(*value) matches Some(doc) ==> text@ == json_text(doc),
        !encode_utf8(text@).contains(0u8),
{
    miniserde::json::to_string(value)
}

/// Reads JSON text with `miniserde::json::from_str`; `None` where it
/// rejects the text.
#[verifier::external_body]
fn parse_value(text: &str) -> (value: Option<Value>)
    ensures
        match value {
            Some(v) => json_parse(text@) == value_model(v),
            None => json_parse(text@) is None,
        },
{
    miniserde::json::from_str::<Value>(text).ok()
}

impl Json {
    /// The JSON text of this document. Its bytes hold no zero byte.
    pub fn to_text(&self) -> (text: String)
        ensures
            text@ == json_text(self@),
            !encode_utf8(text@).contains(0u8),
    {
        let value = to_outside(self);
        render(&value)
    }

    /// The document that a JSON text holds, or `None` where the text is
    /// not well-formed JSON or holds a number that is not an integer.
    pub fn parse(text: &str) -> (doc: Option<Json>)
        ensures
            match doc {
                Some(d) => json_parse(text@) == Some(d@),
                None => json_parse(text@) is None,
            },
    {
        match parse_value(text) {
            Some(value) => from_outside(value),
            None => None,
        }
    }
}

} // verus!
