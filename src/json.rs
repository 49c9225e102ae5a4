use vstd::prelude::*;
use vstd::string::*;
use serde_json::Value;

verus! {

/// One JSON value, read one level deep: the members of an object and the
/// elements of an array are kept as their own JSON text.
pub enum Json {
    Null,
    Bool(bool),
    Number(String),
    Str(String),
    Array(Vec<String>),
    Object(Vec<(String, String)>),
}

/// The mathematical model of a `Json`.
pub enum JsonV {
    Null,
    Bool(bool),
    Number(Seq<char>),
    Str(Seq<char>),
    Array(Seq<Seq<char>>),
    Object(Seq<(Seq<char>, Seq<char>)>),
}

impl View for Json {
    type V = JsonV;

    open spec fn view(&self) -> JsonV {
        match self {
            Json::Null => JsonV::Null,
            Json::Bool(b) => JsonV::Bool(*b),
            Json::Number(n) => JsonV::Number(n@),
            Json::Str(s) => JsonV::Str(s@),
            Json::Array(a) => JsonV::Array(a@.map_values(|x: String| x@)),
            Json::Object(m) => JsonV::Object(entries_view(m@)),
        }
    }
}

/// The model of an object's members.
pub open spec fn entries_view(m: Seq<(String, String)>) -> Seq<(Seq<char>, Seq<char>)> {
    m.map_values(|p: (String, String)| (p.0@, p.1@))
}

/// The JSON value that a text holds, if it holds exactly one.
pub uninterp spec fn json_of(text: Seq<char>) -> Option<JsonV>;

/// The JSON string literal that writes a text, quotes and escapes included.
pub uninterp spec fn json_string_of(text: Seq<char>) -> Seq<char>;

/// The model of an optional value.
pub open spec fn view_opt(j: Option<Json>) -> Option<JsonV> {
    match j {
        Some(v) => Some(v@),
        None => None,
    }
}

/// The model of an optional text.
pub open spec fn view_str_opt(s: Option<String>) -> Option<Seq<char>> {
    match s {
        Some(v) => Some(v@),
        None => None,
    }
}

/// The text of the first member named `key`.
pub open spec fn member(m: Seq<(Seq<char>, Seq<char>)>, key: Seq<char>) -> Option<Seq<char>>
    decreases m.len(),
{
    if m.len() == 0 {
        None
    } else if m[0].0 == key {
        Some(m[0].1)
    } else {
        member(m.drop_first(), key)
    }
}

/// The text of the member `key` of an object; nothing for any other value.
pub open spec fn field(j: JsonV, key: Seq<char>) -> Option<Seq<char>> {
    match j {
        JsonV::Object(m) => member(m, key),
        _ => None,
    }
}

/// The string that a JSON text holds, if it holds a string.
pub open spec fn string_in(text: Seq<char>) -> Option<Seq<char>> {
    match json_of(text) {
        Some(JsonV::Str(s)) => Some(s),
        _ => None,
    }
}

/// An optional member as an optional value: absent and `null` both give nothing.
pub open spec fn present(t: Option<Seq<char>>) -> Option<Seq<char>> {
    match t {
        Some(v) => if json_of(v) == Some(JsonV::Null) { None } else { Some(v) },
        None => None,
    }
}

/// Relies on serde_json::from_str into serde_json::Value: whether a text is one
/// JSON value, and which, depends on the text alone. Members and elements are
/// written back as text by Value's Display.
#[verifier::external_body]
pub(crate) fn parse_text(s: &str) -> (r: Option<Json>)
    ensures
        view_opt(r) == json_of(s@),
{
    match serde_json::from_str::<Value>(s) {
        Err(_) => None,
        Ok(Value::Null) => Some(Json::Null),
        Ok(Value::Bool(b)) => Some(Json::Bool(b)),
        Ok(Value::Number(n)) => Some(Json::Number(n.to_string())),
        Ok(Value::String(t)) => Some(Json::Str(t)),
        Ok(Value::Array(a)) => Some(Json::Array(a.iter().map(|x| x.to_string()).collect())),
        Ok(Value::Object(m)) => {
            Some(Json::Object(m.into_iter().map(|(k, x)| (k, x.to_string())).collect()))
        },
    }
}

/// Relies on serde_json::to_string on a `str`: the JSON string literal of a
/// text, which depends on the text alone (writing into memory does not fail).
#[verifier::external_body]
pub(crate) fn quote_text(s: &str) -> (r: String)
    ensures
        r@ == json_string_of(s@),
{
    serde_json::to_string(s).unwrap_or_default()
}

/// Whether a text equals a given one.
pub fn same_text(a: &String, b: &str) -> (r: bool)
    ensures
        r == (a@ == b@),
{
    let bs = String::from_str(b);
    *a == bs
}

impl Json {
    /// Parses one JSON text.
    pub fn parse(s: &str) -> (r: Option<Json>)
        ensures
            view_opt(r) == json_of(s@),
    {
        parse_text(s)
    }

    /// The text of the member `key`, when this is an object that has it.
    pub fn get(&self, key: &str) -> (r: Option<String>)
        ensures
            view_str_opt(r) == field(self@, key@),
    {
        match self {
            Json::Object(m) => {
                let ghost mv = entries_view(m@);
                let mut i: usize = 0;
                assert(mv.subrange(0, mv.len() as int) =~= mv);
                while i < m.len()
                    invariant
                        i <= m@.len(),
                        self@ == JsonV::Object(mv),
                        mv == entries_view(m@),
                        mv.len() == m@.len(),
                        member(mv, key@) == member(mv.subrange(i as int, mv.len() as int), key@),
                    decreases m.len() - i,
                {
                    let ghost rest = mv.subrange(i as int, mv.len() as int);
                    assert(rest.drop_first() =~= mv.subrange(i + 1, mv.len() as int));
                    assert(rest[0] == mv[i as int]);
                    assert(mv[i as int] == (m@[i as int].0@, m@[i as int].1@));
                    if same_text(&m[i].0, key) {
                        let v = m[i].1.clone();
                        assert(member(rest, key@) == Some(m@[i as int].1@));
                        assert(v@ == m@[i as int].1@);
                        return Some(v);
                    }
                    i = i + 1;
                }
                None
            },
            _ => None,
        }
    }
}

/// The string that a JSON text holds, if it holds a string.
pub fn string_in_text(t: &String) -> (r: Option<String>)
    ensures
        view_str_opt(r) == string_in(t@),
{
    match parse_text(t.as_str()) {
        Some(Json::Str(s)) => Some(s),
        _ => None,
    }
}

/// An optional member as an optional value: absent and `null` both give nothing.
pub fn present_value(t: Option<String>) -> (r: Option<String>)
    ensures
        view_str_opt(r) == present(view_str_opt(t)),
{
    match t {
        Some(v) => match parse_text(v.as_str()) {
            Some(Json::Null) => None,
            _ => Some(v),
        },
        None => None,
    }
}

} // verus!
