//! Texts in the JSON notation, read and written by `serde_json`.
use crate::text::int_text;
use vstd::prelude::*;

verus! {

/// What stands at a place of a document.
#[derive(Debug)]
pub enum JsonPart {
    /// Nothing: the document has no such place.
    Absent,
    Null,
    Flag(bool),
    /// An integer that is not negative and fits in 64 bits.
    Count(u64),
    Text(String),
    /// Another number, a list or an object.
    Other,
}

/// The content of [`JsonPart`].
pub ghost enum JsonPartView {
    Absent,
    Null,
    Flag(bool),
    Count(u64),
    Text(Seq<char>),
    Other,
}

impl View for JsonPart {
    type V = JsonPartView;

    open spec fn view(&self) -> JsonPartView {
        match *self {
            JsonPart::Absent => JsonPartView::Absent,
            JsonPart::Null => JsonPartView::Null,
            JsonPart::Flag(b) => JsonPartView::Flag(b),
            JsonPart::Count(n) => JsonPartView::Count(n),
            JsonPart::Text(t) => JsonPartView::Text(t@),
            JsonPart::Other => JsonPartView::Other,
        }
    }
}

/// The JSON notation of a text.
pub uninterp spec fn quoted(text: Seq<char>) -> Seq<char>;

/// What `serde_json` reads at the place of a document that a JSON pointer names,
/// or nothing where the document cannot be read.
pub uninterp spec fn json_part(text: Seq<char>, pointer: Seq<char>) -> Option<JsonPartView>;

/// Whether `serde_json` reads equal values at the same place of two documents.
pub uninterp spec fn json_same(a: Seq<char>, b: Seq<char>, pointer: Seq<char>) -> bool;

/// The object that `serde_json` writes for names and the JSON notation of their
/// values, or nothing where a value is in no such notation.
pub uninterp spec fn written_object(names: Seq<Seq<char>>, values: Seq<Seq<char>>) -> Option<
    Seq<char>,
>;

/// The object that `serde_json` writes for names and values, where it can also
/// read it.
pub open spec fn readable_object(names: Seq<Seq<char>>, values: Seq<Seq<char>>) -> Option<
    Seq<char>,
> {
    match written_object(names, values) {
        Some(x) => if json_part(x, ""@) is Some {
            Some(x)
        } else {
            None
        },
        None => None,
    }
}

/// The pointer to what `rest` points to in the member of a name.
pub open spec fn pointer_to(name: Seq<char>, rest: Seq<char>) -> Seq<char> {
    "/"@ + name + rest
}

/// Whether a name stands for itself in a pointer and is no name that `serde_json`
/// keeps for itself.
pub open spec fn plain_name(name: Seq<char>) -> bool {
    forall|i: int|
        0 <= i < name.len() ==> (#[trigger] name[i]) != '/' && name[i] != '~' && name[i] != '$'
}

/// Whether names are plain and differ from one another.
pub open spec fn plain_names(names: Seq<Seq<char>>) -> bool {
    (forall|i: int| 0 <= i < names.len() ==> plain_name(#[trigger] names[i])) && (forall|
        i: int,
        j: int,
    |
        0 <= i < j < names.len() ==> #[trigger] names[i] != #[trigger] names[j])
}

/// The texts of a list of strings.
pub open spec fn texts(list: Seq<String>) -> Seq<Seq<char>> {
    list.map_values(|s: String| s@)
}

/// `serde_json::to_string` on a text: its JSON notation, with quotes and
/// escapes, which reads back as the text.
#[verifier::external_body]
pub(crate) fn quote(text: &str) -> (r: String)
    ensures
        r@ == quoted(text@),
        json_part(r@, ""@) == Some(JsonPartView::Text(text@)),
{
    serde_json::to_string(text).unwrap_or_default()
}

/// `serde_json::to_string` on an integer: its decimal digits, which read back as
/// the integer where it is not negative.
#[verifier::external_body]
pub(crate) fn write_integer(n: i64) -> (r: String)
    ensures
        r@ == int_text(n as int),
        json_part(r@, ""@) == Some(
            if n >= 0 {
                JsonPartView::Count(n as u64)
            } else {
                JsonPartView::Other
            },
        ),
{
    serde_json::to_string(&n).unwrap_or_default()
}

/// `serde_json::to_string` on a truth value or nothing: `true`, `false` or
/// `null`, which reads back as the same.
#[verifier::external_body]
pub(crate) fn write_flag(flag: Option<bool>) -> (r: String)
    ensures
        r@ == (match flag {
            Some(true) => "true"@,
            Some(false) => "false"@,
            None => "null"@,
        }),
        json_part(r@, ""@) == Some(
            match flag {
                Some(b) => JsonPartView::Flag(b),
                None => JsonPartView::Null,
            },
        ),
{
    serde_json::to_string(&flag).unwrap_or_default()
}

/// `serde_json::value::RawValue::from_string` on each value and
/// `serde_json::to_string` on the map from the names to them: an object, in the
/// order of the names. Where the object can be read, what stands at a place of a
/// value stands at the same place of its member, and members of two such objects
/// that are written alike are equal.
#[verifier::external_body]
pub(crate) fn write_object(names: &Vec<String>, values: &Vec<String>) -> (r: Option<String>)
    requires
        names@.len() == values@.len(),
        plain_names(texts(names@)),
    ensures
        match r {
            Some(x) => written_object(texts(names@), texts(values@)) == Some(x@),
            None => written_object(texts(names@), texts(values@)) is None,
        },
        r matches Some(x) ==> json_part(x@, ""@) is Some ==> json_part(x@, ""@) == Some(
            JsonPartView::Other,
        ),
        r matches Some(x) ==> json_part(x@, ""@) is Some ==> forall|i: int, rest: Seq<char>|
            #![trigger json_part(x@, pointer_to(names@[i]@, rest))]
            0 <= i < names@.len() && (rest.len() == 0 || rest[0] == '/') ==> json_part(
                x@,
                pointer_to(names@[i]@, rest),
            ) == json_part(values@[i]@, rest),
        r matches Some(x) ==> json_part(x@, ""@) is Some ==> forall|
            o: Seq<char>,
            on: Seq<Seq<char>>,
            ov: Seq<Seq<char>>,
            i: int,
            j: int,
        |
            #![trigger readable_object(on, ov), json_same(o, x@, pointer_to(names@[i]@, ""@)), on[j]]
            readable_object(on, ov) == Some(o) && plain_names(on) && on.len() == ov.len() && 0 <= i
                < names@.len() && 0 <= j < on.len() && on[j] == names@[i]@ && ov[j] == values@[i]@
                ==> json_same(o, x@, pointer_to(names@[i]@, ""@)),
{
    let members: Result<std::collections::BTreeMap<_, _>, serde_json::Error> = names
        .iter()
        .zip(values)
        .map(|(name, value)| Ok((name, serde_json::value::RawValue::from_string(value.clone())?)))
        .collect();
    serde_json::to_string(&members.ok()?).ok()
}

/// `serde_json::from_str` and `serde_json::Value::pointer`: what stands at a place
/// of a document, or nothing where the document cannot be read.
#[verifier::external_body]
pub(crate) fn json_at(text: &str, pointer: &str) -> (r: Option<JsonPart>)
    ensures
        match r {
            Some(x) => json_part(text@, pointer@) == Some(x@),
            None => json_part(text@, pointer@) is None,
        },
{
    let value: serde_json::Value = serde_json::from_str(text).ok()?;
    Some(match value.pointer(pointer) {
        None => JsonPart::Absent,
        Some(serde_json::Value::Null) => JsonPart::Null,
        Some(serde_json::Value::Bool(b)) => JsonPart::Flag(*b),
        Some(serde_json::Value::String(s)) => JsonPart::Text(s.clone()),
        Some(other) => other.as_u64().map_or(JsonPart::Other, JsonPart::Count),
    })
}

/// `serde_json::from_str`, `serde_json::Value::pointer` and the equality of
/// `serde_json::Value`: whether equal values stand at a place of two documents.
#[verifier::external_body]
pub(crate) fn same_json_at(a: &str, b: &str, pointer: &str) -> (r: bool)
    ensures
        r == json_same(a@, b@, pointer@),
{
    let first: Option<serde_json::Value> = serde_json::from_str(a).ok();
    let second: Option<serde_json::Value> = serde_json::from_str(b).ok();
    match (first, second) {
        (Some(x), Some(y)) => x.pointer(pointer) == y.pointer(pointer),
        _ => false,
    }
}

/// The object of names and values, where it can be read. What stands at a place of
/// a value stands at the same place of its member, and members of two such objects
/// that are written alike are equal.
pub fn object_of(names: &Vec<String>, values: &Vec<String>) -> (r: Option<String>)
    requires
        names@.len() == values@.len(),
        plain_names(texts(names@)),
    ensures
        r.deep_view() == readable_object(texts(names@), texts(values@)),
        r matches Some(x) ==> json_part(x@, ""@) == Some(JsonPartView::Other),
        r matches Some(x) ==> forall|i: int, rest: Seq<char>|
            #![trigger json_part(x@, pointer_to(names@[i]@, rest))]
            0 <= i < names@.len() && (rest.len() == 0 || rest[0] == '/') ==> json_part(
                x@,
                pointer_to(names@[i]@, rest),
            ) == json_part(values@[i]@, rest),
        r matches Some(x) ==> forall|
            o: Seq<char>,
            on: Seq<Seq<char>>,
            ov: Seq<Seq<char>>,
            i: int,
            j: int,
        |
            #![trigger readable_object(on, ov), json_same(o, x@, pointer_to(names@[i]@, ""@)), on[j]]
            readable_object(on, ov) == Some(o) && plain_names(on) && on.len() == ov.len() && 0 <= i
                < names@.len() && 0 <= j < on.len() && on[j] == names@[i]@ && ov[j] == values@[i]@
                ==> json_same(o, x@, pointer_to(names@[i]@, ""@)),
{
    let text = write_object(names, values)?;
    match json_at(text.as_str(), "") {
        Some(_) => Some(text),
        None => None,
    }
}

impl JsonPart {
    /// Whether a part is a text.
    pub fn is_text(&self, text: &str) -> (r: bool)
        ensures
            r == (self@ == JsonPartView::Text(text@)),
    {
        match self {
            JsonPart::Text(t) => crate::text::text_eq(t.as_str(), text),
            _ => false,
        }
    }

    /// Whether a part is a count.
    pub fn is_count(&self, n: u64) -> (r: bool)
        ensures
            r == (self@ == JsonPartView::Count(n)),
    {
        match self {
            JsonPart::Count(m) => *m == n,
            _ => false,
        }
    }

    /// Whether a part is a truth value.
    pub fn is_flag(&self, b: bool) -> (r: bool)
        ensures
            r == (self@ == JsonPartView::Flag(b)),
    {
        match self {
            JsonPart::Flag(c) => *c == b,
            _ => false,
        }
    }
}

} // verus!
