//! JSON values as the API sends and accepts them.
use vstd::prelude::*;

verus! {

/// A JSON value. Numbers keep their textual form.
#[derive(Debug)]
pub enum JsonValue {
    /// `null`.
    Null,
    /// `true` or `false`.
    Bool(bool),
    /// A number, as written.
    Number(String),
    /// A string.
    Str(String),
    /// An array.
    Array(Vec<JsonValue>),
    /// An object: its members in order.
    Object(Vec<(String, JsonValue)>),
}

/// The mathematical value of a [`JsonValue`].
pub enum Json {
    Null,
    Bool(bool),
    Number(Seq<char>),
    Str(Seq<char>),
    Array(Seq<Json>),
    Object(Seq<(Seq<char>, Json)>),
}

impl JsonValue {
    /// The mathematical value this holds.
    pub open spec fn model(self) -> Json
        decreases self,
    {
        match self {
            JsonValue::Null => Json::Null,
            JsonValue::Bool(b) => Json::Bool(b),
            JsonValue::Number(n) => Json::Number(n@),
            JsonValue::Str(s) => Json::Str(s@),
            JsonValue::Array(items) => Json::Array(
                Seq::new(
                    items@.len(),
                    |i: int|
                        if 0 <= i < items@.len() {
                            items@[i].model()
                        } else {
                            Json::Null
                        },
                ),
            ),
            JsonValue::Object(entries) => Json::Object(
                Seq::new(
                    entries@.len(),
                    |i: int|
                        if 0 <= i < entries@.len() {
                            (entries@[i].0@, entries@[i].1.model())
                        } else {
                            (Seq::empty(), Json::Null)
                        },
                ),
            ),
        }
    }

    /// Copies the value, members and elements included.
    pub fn deep_clone(&self) -> (res: JsonValue)
        ensures
            res.model() == self.model(),
        decreases self,
    {
        match self {
            JsonValue::Null => JsonValue::Null,
            JsonValue::Bool(b) => JsonValue::Bool(*b),
            JsonValue::Number(n) => JsonValue::Number(n.clone()),
            JsonValue::Str(s) => JsonValue::Str(s.clone()),
            JsonValue::Array(items) => {
                let mut out: Vec<JsonValue> = Vec::new();
                let n = items.len();
                for i in 0..n
                    invariant
                        n == items@.len(),
                        *self == JsonValue::Array(*items),
                        out@.len() == i,
                        forall|j: int| 0 <= j < i ==> (#[trigger] out@[j]).model() == items@[j].model(),
                {
                    proof {
                        assert(decreases_to!(*items => items@));
                        assert(decreases_to!(items@ => items@[i as int]));
                        assert(decreases_to!(*self => self->Array_0));
                    }
                    let c = items[i].deep_clone();
                    out.push(c);
                }
                let res = JsonValue::Array(out);
                assert(res.model()->Array_0 =~= self.model()->Array_0);
                res
            },
            JsonValue::Object(entries) => {
                let mut out: Vec<(String, JsonValue)> = Vec::new();
                let n = entries.len();
                for i in 0..n
                    invariant
                        n == entries@.len(),
                        *self == JsonValue::Object(*entries),
                        out@.len() == i,
                        forall|j: int| 0 <= j < i ==> (#[trigger] out@[j]).0@ == entries@[j].0@ && out@[j].1.model() == entries@[j].1.model(),
                {
                    proof {
                        assert(decreases_to!(*entries => entries@));
                        assert(decreases_to!(entries@ => entries@[i as int]));
                        assert(decreases_to!(entries@[i as int] => entries@[i as int].1));
                        assert(decreases_to!(*self => self->Object_0));
                    }
                    let c = entries[i].1.deep_clone();
                    out.push((entries[i].0.clone(), c));
                }
                let res = JsonValue::Object(out);
                assert(res.model()->Object_0 =~= self.model()->Object_0);
                res
            },
        }
    }
}

/// The value stored under `key` in a list of object entries: that of the
/// first entry with this key.
pub open spec fn lookup(entries: Seq<(String, JsonValue)>, key: Seq<char>) -> Option<JsonValue>
    decreases entries.len(),
{
    if entries.len() == 0 {
        None
    } else if entries[0].0@ == key {
        Some(entries[0].1)
    } else {
        lookup(entries.drop_first(), key)
    }
}

/// The text of a value that is a JSON string.
pub open spec fn str_value(v: Option<JsonValue>) -> Option<Seq<char>> {
    match v {
        Some(JsonValue::Str(s)) => Some(s@),
        _ => None,
    }
}

impl JsonValue {
    /// The member `key` of an object; `None` for any other value.
    pub open spec fn field(self, key: Seq<char>) -> Option<JsonValue> {
        match self {
            JsonValue::Object(entries) => lookup(entries@, key),
            _ => None,
        }
    }

    /// Looks up the member `key` of an object (the first entry with that
    /// key); `None` when the value is not an object or has no such member.
    pub fn get(&self, key: &str) -> (r: Option<&JsonValue>)
        ensures
            r is None <==> self.field(key@) is None,
            r matches Some(v) ==> self.field(key@) == Some(*v),
    {
        match self {
            JsonValue::Object(entries) => {
                let wanted = key.to_owned();
                let mut i: usize = 0;
                assert(entries@.skip(0) =~= entries@);
                while i < entries.len()
                    invariant
                        i <= entries@.len(),
                        *self == JsonValue::Object(*entries),
                        wanted@ == key@,
                        lookup(entries@, key@) == lookup(entries@.skip(i as int), key@),
                    decreases entries@.len() - i,
                {
                    let ghost rest = entries@.skip(i as int);
                    assert(rest[0] == entries@[i as int]);
                    if entries[i].0 == wanted {
                        return Some(&entries[i].1);
                    }
                    assert(rest.drop_first() =~= entries@.skip(i + 1));
                    i = i + 1;
                }
                None
            },
            _ => None,
        }
    }

    /// The text of a JSON string.
    pub fn as_str(&self) -> (r: Option<&String>)
        ensures
            r is None <==> !(self is Str),
            r matches Some(s) ==> *self == JsonValue::Str(*s),
    {
        match self {
            JsonValue::Str(s) => Some(s),
            _ => None,
        }
    }

    /// The value of a JSON boolean.
    pub fn as_bool(&self) -> (r: Option<bool>)
        ensures
            r is None <==> !(self is Bool),
            r matches Some(b) ==> *self == JsonValue::Bool(b),
    {
        match self {
            JsonValue::Bool(b) => Some(*b),
            _ => None,
        }
    }

    /// The elements of a JSON array.
    pub fn as_array(&self) -> (r: Option<&Vec<JsonValue>>)
        ensures
            r is None <==> !(self is Array),
            r matches Some(items) ==> *self == JsonValue::Array(*items),
    {
        match self {
            JsonValue::Array(items) => Some(items),
            _ => None,
        }
    }

    /// The entries of a JSON object.
    pub fn as_object(&self) -> (r: Option<&Vec<(String, JsonValue)>>)
        ensures
            r is None <==> !(self is Object),
            r matches Some(entries) ==> *self == JsonValue::Object(*entries),
    {
        match self {
            JsonValue::Object(entries) => Some(entries),
            _ => None,
        }
    }

    /// Whether the value is a JSON string.
    pub fn is_string(&self) -> (r: bool)
        ensures
            r == self is Str,
    {
        match self {
            JsonValue::Str(_) => true,
            _ => false,
        }
    }

    /// Whether the value is a JSON array.
    pub fn is_array(&self) -> (r: bool)
        ensures
            r == self is Array,
    {
        match self {
            JsonValue::Array(_) => true,
            _ => false,
        }
    }

    /// Whether the value is JSON `null`.
    pub fn is_null(&self) -> (r: bool)
        ensures
            r == self is Null,
    {
        match self {
            JsonValue::Null => true,
            _ => false,
        }
    }
}

/// The model of a list of object entries.
pub open spec fn entries_model(entries: Seq<(String, JsonValue)>) -> Seq<(Seq<char>, Json)> {
    entries.map_values(|e: (String, JsonValue)| (e.0@, e.1.model()))
}

/// Copies a list of object entries.
pub fn clone_entries(entries: &Vec<(String, JsonValue)>) -> (r: Vec<(String, JsonValue)>)
    ensures
        entries_model(r@) == entries_model(entries@),
{
    let mut out: Vec<(String, JsonValue)> = Vec::new();
    let n = entries.len();
    for i in 0..n
        invariant
            n == entries@.len(),
            out@.len() == i,
            forall|j: int|
                0 <= j < i ==> (#[trigger] out@[j]).0@ == entries@[j].0@ && out@[j].1.model()
                    == entries@[j].1.model(),
    {
        let value = entries[i].1.deep_clone();
        out.push((entries[i].0.clone(), value));
    }
    assert(entries_model(out@) =~= entries_model(entries@));
    out
}

impl Clone for JsonValue {
    fn clone(&self) -> (res: Self)
        ensures
            res.model() == self.model(),
    {
        self.deep_clone()
    }
}

#[verifier::external_type_specification]
#[verifier::external_body]
pub struct ExSerdeJsonValue(serde_json::Value);

/// The value that `serde_json` parses from `bytes`, as a [`Json`]; `None`
/// when the bytes are not one JSON document.
pub uninterp spec fn spec_parse_json(bytes: Seq<u8>) -> Option<Json>;

/// Parses `bytes` as one JSON document.
///
/// Wraps `serde_json::from_slice::<serde_json::Value>`, which fails on
/// anything that is not exactly one JSON document (surrounding whitespace
/// allowed) and otherwise gives a value that depends on the bytes alone; the
/// contract names that value `spec_parse_json(bytes)`.
#[verifier::external_body]
pub fn parse_json(bytes: &[u8]) -> (r: Option<JsonValue>)
    ensures
        match r {
            Some(v) => spec_parse_json(bytes@) == Some(v.model()),
            None => spec_parse_json(bytes@) is None,
        },
{
    serde_json::from_slice::<serde_json::Value>(bytes).ok().map(from_serde)
}

/// Converts a `serde_json::Value` into a [`JsonValue`], variant for
/// variant: numbers keep the text `serde_json` writes for them, object
/// members keep `serde_json`'s order.
///
/// Nothing is stated of the result: a `serde_json::Value` is opaque here.
/// [`parse_json`] states what the parse and this conversion give together.
#[verifier::external_body]
fn from_serde(value: serde_json::Value) -> JsonValue {
    match value {
        serde_json::Value::Null => JsonValue::Null,
        serde_json::Value::Bool(b) => JsonValue::Bool(b),
        serde_json::Value::Number(n) => JsonValue::Number(n.to_string()),
        serde_json::Value::String(s) => JsonValue::Str(s),
        serde_json::Value::Array(items) => JsonValue::Array(items.into_iter().map(from_serde).collect()),
        serde_json::Value::Object(map) => JsonValue::Object(map.into_iter().map(|(k, v)| (k, from_serde(v))).collect()),
    }
}

} // verus!
