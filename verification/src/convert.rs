//! Reading typed values out of JSON documents, and writing them in.

use crate::error::{BusError, BusFailure};
use crate::json::{items_view, lemma_array_view, Json, JsonValue};
use crate::response::Response;
use vstd::prelude::*;
use vstd::string::StringExecFns;

verus! {

/// A type whose values can be read from a JSON document.
///
/// `readable` says which documents hold a value of the type, and `decodes`
/// which value a document holds.
pub trait FromJson: Sized {
    spec fn readable(doc: JsonValue) -> bool;

    spec fn decodes(doc: JsonValue, value: Self) -> bool;

    fn from_json(doc: &Json) -> (r: Option<Self>)
        ensures
            r is Some <==> Self::readable(doc@),
            r matches Some(value) ==> Self::decodes(doc@, value),
    ;
}

/// The integer that a JSON number stands for.
pub open spec fn integer_of(doc: JsonValue) -> Option<int> {
    match doc {
        JsonValue::Unsigned(n) => Some(n as int),
        JsonValue::Signed(n) => Some(n as int),
        _ => None,
    }
}

/// The JSON number that holds a 32-bit integer, in the form in which it is
/// read back: `Unsigned` from zero up, `Signed` below.
pub open spec fn integer_model(n: int) -> JsonValue {
    if n >= 0 {
        JsonValue::Unsigned(n as u64)
    } else {
        JsonValue::Signed(n as i64)
    }
}

/// The JSON array that holds bytes, one number each.
pub open spec fn bytes_model(bytes: Seq<u8>) -> JsonValue {
    JsonValue::Array(Seq::new(bytes.len(), |i: int| JsonValue::Unsigned(bytes[i] as u64)))
}

/// Any document holds itself.
impl FromJson for Json {
    open spec fn readable(doc: JsonValue) -> bool {
        true
    }

    open spec fn decodes(doc: JsonValue, value: Json) -> bool {
        value@ == doc
    }

    fn from_json(doc: &Json) -> (r: Option<Json>) {
        Some(doc.duplicate())
    }
}

impl FromJson for bool {
    open spec fn readable(doc: JsonValue) -> bool {
        doc is Bool
    }

    open spec fn decodes(doc: JsonValue, value: bool) -> bool {
        doc == JsonValue::Bool(value)
    }

    fn from_json(doc: &Json) -> (r: Option<bool>) {
        match doc {
            Json::Bool(b) => Some(*b),
            _ => None,
        }
    }
}

impl FromJson for i32 {
    open spec fn readable(doc: JsonValue) -> bool {
        integer_of(doc) matches Some(n) && i32::MIN <= n <= i32::MAX
    }

    open spec fn decodes(doc: JsonValue, value: i32) -> bool {
        integer_of(doc) == Some(value as int)
    }

    fn from_json(doc: &Json) -> (r: Option<i32>) {
        match doc {
            Json::Unsigned(n) => {
                if *n <= 0x7fff_ffff {
                    Some(*n as i32)
                } else {
                    None
                }
            },
            Json::Signed(n) => {
                if -0x8000_0000 <= *n && *n <= 0x7fff_ffff {
                    Some(*n as i32)
                } else {
                    None
                }
            },
            _ => None,
        }
    }
}

impl FromJson for u64 {
    open spec fn readable(doc: JsonValue) -> bool {
        integer_of(doc) matches Some(n) && 0 <= n
    }

    open spec fn decodes(doc: JsonValue, value: u64) -> bool {
        integer_of(doc) == Some(value as int)
    }

    fn from_json(doc: &Json) -> (r: Option<u64>) {
        match doc {
            Json::Unsigned(n) => Some(*n),
            Json::Signed(n) => {
                if *n >= 0 {
                    Some(*n as u64)
                } else {
                    None
                }
            },
            _ => None,
        }
    }
}

impl FromJson for u8 {
    open spec fn readable(doc: JsonValue) -> bool {
        integer_of(doc) matches Some(n) && 0 <= n <= u8::MAX
    }

    open spec fn decodes(doc: JsonValue, value: u8) -> bool {
        integer_of(doc) == Some(value as int)
    }

    fn from_json(doc: &Json) -> (r: Option<u8>) {
        match doc {
            Json::Unsigned(n) => {
                if *n <= 0xff {
                    Some(*n as u8)
                } else {
                    None
                }
            },
            Json::Signed(n) => {
                if 0 <= *n && *n <= 0xff {
                    Some(*n as u8)
                } else {
                    None
                }
            },
            _ => None,
        }
    }
}

impl FromJson for String {
    open spec fn readable(doc: JsonValue) -> bool {
        doc is Text
    }

    open spec fn decodes(doc: JsonValue, value: String) -> bool {
        doc == JsonValue::Text(value@)
    }

    fn from_json(doc: &Json) -> (r: Option<String>) {
        match doc.as_str() {
            Some(text) => Some(String::from_str(text)),
            None => None,
        }
    }
}

/// The value of a call that returns nothing: only `null` holds it.
impl FromJson for () {
    open spec fn readable(doc: JsonValue) -> bool {
        doc is Null
    }

    open spec fn decodes(doc: JsonValue, value: ()) -> bool {
        doc is Null
    }

    fn from_json(doc: &Json) -> (r: Option<()>) {
        match doc {
            Json::Null => Some(()),
            _ => None,
        }
    }
}

/// `null` holds no value; any other document has to hold one.
impl<T: FromJson> FromJson for Option<T> {
    open spec fn readable(doc: JsonValue) -> bool {
        doc is Null || T::readable(doc)
    }

    open spec fn decodes(doc: JsonValue, value: Option<T>) -> bool {
        if doc is Null {
            value is None
        } else {
            value matches Some(inner) && T::decodes(doc, inner)
        }
    }

    fn from_json(doc: &Json) -> (r: Option<Option<T>>) {
        match doc {
            Json::Null => Some(None),
            _ => match T::from_json(doc) {
                Some(inner) => Some(Some(inner)),
                None => None,
            },
        }
    }
}

/// An array holds a list where each of its items holds a value.
impl<T: FromJson> FromJson for Vec<T> {
    open spec fn readable(doc: JsonValue) -> bool {
        doc matches JsonValue::Array(items) && forall|i: int|
            0 <= i < items.len() ==> T::readable(#[trigger] items[i])
    }

    open spec fn decodes(doc: JsonValue, value: Vec<T>) -> bool {
        doc matches JsonValue::Array(items) && value.len() == items.len() && forall|i: int|
            0 <= i < items.len() ==> T::decodes(#[trigger] items[i], value[i])
    }

    fn from_json(doc: &Json) -> (r: Option<Vec<T>>) {
        match doc.as_array() {
            Some(items) => {
                let ghost models = items_view(items@);
                let mut values: Vec<T> = Vec::new();
                let mut i: usize = 0;
                while i < items.len()
                    invariant
                        i <= items.len(),
                        models == items_view(items@),
                        doc@ == JsonValue::Array(models),
                        values.len() == i,
                        forall|j: int| 0 <= j < i ==> T::readable(#[trigger] models[j]),
                        forall|j: int| 0 <= j < i ==> T::decodes(#[trigger] models[j], values[j]),
                    decreases items.len() - i,
                {
                    match T::from_json(&items[i]) {
                        Some(value) => {
                            values.push(value);
                        },
                        None => {
                            assert(!T::readable(models[i as int]));
                            assert(doc@->Array_0 == models);
                            return None;
                        },
                    }
                    i = i + 1;
                }
                Some(values)
            },
            None => None,
        }
    }
}

impl Json {
    /// The JSON string that holds `text`.
    pub fn text(text: &str) -> (doc: Json)
        ensures
            doc@ == JsonValue::Text(text@),
    {
        Json::Text(String::from_str(text))
    }

    /// The JSON number that holds `n`.
    pub fn integer(n: i32) -> (doc: Json)
        ensures
            doc@ == integer_model(n as int),
    {
        if n >= 0 {
            Json::Unsigned(n as u64)
        } else {
            Json::Signed(n as i64)
        }
    }

    /// The JSON array that holds `bytes`, one number each.
    pub fn bytes(bytes: &[u8]) -> (doc: Json)
        ensures
            doc@ == bytes_model(bytes@),
    {
        let mut items: Vec<Json> = Vec::new();
        let mut i: usize = 0;
        while i < bytes.len()
            invariant
                i <= bytes.len(),
                items.len() == i,
                forall|j: int| 0 <= j < i ==> items@[j]@ == JsonValue::Unsigned(bytes@[j] as u64),
            decreases bytes.len() - i,
        {
            items.push(Json::Unsigned(bytes[i] as u64));
            i = i + 1;
        }
        proof {
            lemma_array_view(items);
            assert(items_view(items@) =~= Seq::new(
                bytes@.len(),
                |i: int| JsonValue::Unsigned(bytes@[i] as u64),
            ));
        }
        Json::Array(items)
    }
}

impl Response<Json> {
    /// Reads the payload as a value of the type that the caller expects.
    /// A payload that does not hold one is a protocol failure.
    pub fn decode<R: FromJson>(&self) -> (r: Result<Response<R>, BusError>)
        ensures
            match r {
                Ok(typed) => {
                    &&& R::readable(self.data@)
                    &&& typed.msg_type == self.msg_type
                    &&& R::decodes(self.data@, typed.data)
                },
                Err(e) => !R::readable(self.data@) && e@ == BusFailure::Protocol,
            },
    {
        match R::from_json(&self.data) {
            Some(data) => Ok(Response { msg_type: self.msg_type, data }),
            None => Err(BusError::Protocol),
        }
    }
}

} // verus!
