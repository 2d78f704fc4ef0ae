//! JSON documents as the library reads them, and their schema outline.
use vstd::prelude::*;
use crate::text::{append_chars, chars_of, decimal, decimal_chars, repeat, repeat_char};

verus! {

broadcast use vstd::string::group_string_axioms;

/// A JSON value, holding what the schema outline reads of it: the kind of each
/// value, the elements of arrays and the keys and values of objects, in order.
#[derive(Debug)]
pub enum JsonValue {
    Null,
    Bool(bool),
    Number,
    Str(String),
    Array(Vec<JsonValue>),
    Object(Vec<(String, JsonValue)>),
}

#[verifier::external_type_specification]
#[verifier::external_body]
pub struct ExSerdeJsonValue(serde_json::Value);

/// The document that `serde_json::from_str::<serde_json::Value>` reads from
/// `text`, if it is valid JSON.
pub uninterp spec fn json_document(text: Seq<char>) -> Option<JsonValue>;

/// Parses `text` with `serde_json::from_str::<serde_json::Value>` and returns
/// the document as a `JsonValue` (`None` when serde_json rejects the text).
/// The contract names the result only.
#[verifier::external_body]
pub(crate) fn parse_json(text: &str) -> (r: Option<JsonValue>)
    ensures
        r == json_document(text@),
{
    serde_json::from_str::<serde_json::Value>(text).ok().map(|v| json_value_of(&v))
}

/// Converts a `serde_json::Value` into a `JsonValue`, variant by variant, with
/// array elements and object entries in the order serde_json yields them.
#[verifier::external_body]
fn json_value_of(v: &serde_json::Value) -> JsonValue {
    match v {
        serde_json::Value::Null => JsonValue::Null,
        serde_json::Value::Bool(b) => JsonValue::Bool(*b),
        serde_json::Value::Number(_) => JsonValue::Number,
        serde_json::Value::String(s) => JsonValue::Str(s.clone()),
        serde_json::Value::Array(a) => JsonValue::Array(a.iter().map(json_value_of).collect()),
        serde_json::Value::Object(o) => JsonValue::Object(
            o.iter().map(|(k, x)| (k.clone(), json_value_of(x))).collect(),
        ),
    }
}

/// Indentation for a nesting depth: two spaces per level.
pub open spec fn indent(depth: nat) -> Seq<char> {
    repeat(' ', 2 * depth)
}

/// The schema outline of `v` at nesting `depth`: below depth 4 it is cut to
/// `...`; scalars become their type name; a non-empty array shows its first
/// element's outline and how many more items there are; an object lists each
/// key with its value's outline.
pub open spec fn schema(v: JsonValue, depth: nat) -> Seq<char>
    decreases 6 - depth, 1int, 0int,
{
    if depth > 4 {
        "..."@
    } else {
        match v {
            JsonValue::Null => "null"@,
            JsonValue::Bool(_) => "boolean"@,
            JsonValue::Number => "number"@,
            JsonValue::Str(_) => "string"@,
            JsonValue::Array(a) => if a@.len() == 0 {
                "[]"@
            } else {
                "[\n  "@ + indent(depth) + schema(a@[0], depth + 1) + ",\n  "@ + indent(depth)
                    + "// ... "@ + decimal((a@.len() - 1) as nat) + " more items of same schema\n"@
                    + indent(depth) + "]"@
            },
            JsonValue::Object(o) => if o@.len() == 0 {
                "{}"@
            } else {
                "{\n"@ + schema_entries(o@, o@.len(), depth) + indent(depth) + "}"@
            },
        }
    }
}

/// The outline lines of the first `n` entries of an object at `depth`.
pub open spec fn schema_entries(entries: Seq<(String, JsonValue)>, n: nat, depth: nat) -> Seq<char>
    decreases 6 - depth, 0int, n,
{
    if depth > 4 || n == 0 || n > entries.len() {
        Seq::empty()
    } else {
        schema_entries(entries, (n - 1) as nat, depth) + "  "@ + indent(depth) + "\""@
            + entries[n - 1].0@ + "\": "@ + schema(entries[n - 1].1, depth + 1) + ",\n"@
    }
}

fn push_lit(v: &mut Vec<char>, s: &str)
    ensures
        final(v)@ == old(v)@ + s@,
{
    let c = chars_of(s);
    append_chars(v, c.as_slice());
}

/// The schema outline of `val` at nesting `depth`, appended to `out`.
fn schema_into(val: &JsonValue, depth: usize, out: &mut Vec<char>)
    ensures
        final(out)@ == old(out)@ + schema(*val, depth as nat),
    decreases 6 - depth, 1int, 0int,
{
    if depth > 4 {
        push_lit(out, "...");
        return;
    }
    let ind = repeat_char(' ', depth * 2);
    match val {
        JsonValue::Null => push_lit(out, "null"),
        JsonValue::Bool(_) => push_lit(out, "boolean"),
        JsonValue::Number => push_lit(out, "number"),
        JsonValue::Str(_) => push_lit(out, "string"),
        JsonValue::Array(a) => {
            if a.len() == 0 {
                push_lit(out, "[]");
            } else {
                let ghost start = out@;
                push_lit(out, "[\n  ");
                append_chars(out, ind.as_slice());
                schema_into(&a[0], depth + 1, out);
                push_lit(out, ",\n  ");
                append_chars(out, ind.as_slice());
                push_lit(out, "// ... ");
                let count = decimal_chars(a.len() - 1);
                append_chars(out, count.as_slice());
                push_lit(out, " more items of same schema\n");
                append_chars(out, ind.as_slice());
                push_lit(out, "]");
                assert(out@ =~= start + schema(*val, depth as nat));
            }
        },
        JsonValue::Object(o) => {
            if o.len() == 0 {
                push_lit(out, "{}");
            } else {
                let ghost start = out@;
                push_lit(out, "{\n");
                entries_into(o, o.len(), depth, out);
                append_chars(out, ind.as_slice());
                push_lit(out, "}");
                assert(out@ =~= start + schema(*val, depth as nat));
            }
        },
    }
}

/// The outline lines of the first `n` entries of an object at `depth`,
/// appended to `out`.
fn entries_into(entries: &Vec<(String, JsonValue)>, n: usize, depth: usize, out: &mut Vec<char>)
    requires
        depth <= 4,
        n <= entries.len(),
    ensures
        final(out)@ == old(out)@ + schema_entries(entries@, n as nat, depth as nat),
    decreases 6 - depth, 0int, n,
{
    if n == 0 {
        assert(old(out)@ + Seq::<char>::empty() =~= old(out)@);
        return;
    }
    let ghost start = out@;
    entries_into(entries, n - 1, depth, out);
    let ind = repeat_char(' ', depth * 2);
    push_lit(out, "  ");
    append_chars(out, ind.as_slice());
    push_lit(out, "\"");
    let key = chars_of(entries[n - 1].0.as_str());
    append_chars(out, key.as_slice());
    push_lit(out, "\": ");
    schema_into(&entries[n - 1].1, depth + 1, out);
    push_lit(out, ",\n");
    assert(out@ =~= start + schema_entries(entries@, n as nat, depth as nat));
}

/// The schema outline of a JSON value at nesting `depth`.
pub fn extract_schema(val: &JsonValue, depth: usize) -> (r: Vec<char>)
    ensures
        r@ == schema(*val, depth as nat),
{
    let mut out: Vec<char> = Vec::new();
    schema_into(val, depth, &mut out);
    assert(Seq::<char>::empty() + schema(*val, depth as nat) =~= schema(*val, depth as nat));
    out
}

/// The value under `key` among the first `n` entries of an object, the first
/// such entry in order.
pub open spec fn entry_value(entries: Seq<(String, JsonValue)>, key: Seq<char>, n: int) -> Option<JsonValue>
    decreases n,
{
    if n <= 0 || n > entries.len() {
        None
    } else {
        match entry_value(entries, key, n - 1) {
            Some(v) => Some(v),
            None => if entries[n - 1].0@ == key {
                Some(entries[n - 1].1)
            } else {
                None
            },
        }
    }
}

proof fn lemma_entry_value_found(entries: Seq<(String, JsonValue)>, key: Seq<char>, m: int, n: int)
    requires
        0 <= m <= n <= entries.len(),
        entry_value(entries, key, m) is Some,
    ensures
        entry_value(entries, key, n) == entry_value(entries, key, m),
    decreases n - m,
{
    if n > m {
        lemma_entry_value_found(entries, key, m, n - 1);
    }
}

/// The text under the key `version` of a JSON object (what
/// `value.get("version")?.as_str()` gives), `None` when the document is not an
/// object, has no such key, or holds something other than a string there.
pub open spec fn version_field(doc: Option<JsonValue>) -> Option<Seq<char>> {
    match doc {
        Some(JsonValue::Object(entries)) => match entry_value(entries@, "version"@, entries@.len() as int) {
            Some(JsonValue::Str(v)) => Some(v@),
            _ => None,
        },
        _ => None,
    }
}

/// The version that a version report (a JSON body) announces.
pub fn remote_version(body: &str) -> (r: Option<String>)
    ensures
        crate::stdlib::opt_view(r) == version_field(json_document(body@)),
{
    let doc = parse_json(body);
    match &doc {
        Some(JsonValue::Object(entries)) => {
            assert(doc == Some(JsonValue::Object(*entries)));
            let key = chars_of("version");
            let mut i: usize = 0;
            while i < entries.len()
                invariant
                    i <= entries.len(),
                    key@ == "version"@,
                    json_document(body@) == Some(JsonValue::Object(*entries)),
                    entry_value(entries@, "version"@, i as int) is None,
                decreases entries.len() - i,
            {
                let k = chars_of(entries[i].0.as_str());
                if crate::text::chars_eq(k.as_slice(), key.as_slice()) {
                    assert(entry_value(entries@, "version"@, i + 1) == Some(entries@[i as int].1));
                    proof {
                        lemma_entry_value_found(entries@, "version"@, i + 1, entries@.len() as int);
                    }
                    assert(entry_value(entries@, "version"@, entries@.len() as int) == Some(
                        entries@[i as int].1,
                    ));
                    match &entries[i].1 {
                        JsonValue::Str(v) => {
                            let r = v.clone();
                            assert(r@ == v@);
                            return Some(r);
                        },
                        _ => {
                            return None;
                        },
                    }
                }
                i = i + 1;
            }
            None
        },
        _ => None,
    }
}

/// The schema outline stops at depth 4 and, below that, depends only on the
/// kind of each value: strings, numbers and booleans give their type name
/// whatever they hold.
pub proof fn law_schema_reads_only_kinds(v: JsonValue, depth: nat, a: String, b: String, x: bool, y: bool)
    ensures
        depth > 4 ==> schema(v, depth) == "..."@,
        schema(JsonValue::Str(a), depth) == schema(JsonValue::Str(b), depth),
        schema(JsonValue::Bool(x), depth) == schema(JsonValue::Bool(y), depth),
{
}

/// `v1` and `v2` have the same shape as far as the outline reads them from
/// `depth` on: the same kind of value; arrays of the same length whose first
/// items have the same shape; objects with the same keys in order whose
/// values have the same shape.
pub open spec fn same_shape(v1: JsonValue, v2: JsonValue, depth: nat) -> bool
    decreases 6 - depth, 1int, 0int,
{
    if depth > 4 {
        true
    } else {
        match (v1, v2) {
            (JsonValue::Null, JsonValue::Null) => true,
            (JsonValue::Bool(_), JsonValue::Bool(_)) => true,
            (JsonValue::Number, JsonValue::Number) => true,
            (JsonValue::Str(_), JsonValue::Str(_)) => true,
            (JsonValue::Array(a), JsonValue::Array(b)) => a@.len() == b@.len() && (a@.len() == 0
                || same_shape(a@[0], b@[0], depth + 1)),
            (JsonValue::Object(o), JsonValue::Object(q)) => o@.len() == q@.len() && same_entries(
                o@,
                q@,
                o@.len(),
                depth,
            ),
            _ => false,
        }
    }
}

/// The first `n` entries of two objects have the same keys and values of the
/// same shape.
pub open spec fn same_entries(
    o: Seq<(String, JsonValue)>,
    q: Seq<(String, JsonValue)>,
    n: nat,
    depth: nat,
) -> bool
    decreases 6 - depth, 0int, n,
{
    if depth > 4 || n == 0 {
        true
    } else {
        &&& o[n - 1].0@ == q[n - 1].0@
        &&& same_shape(o[n - 1].1, q[n - 1].1, depth + 1)
        &&& same_entries(o, q, (n - 1) as nat, depth)
    }
}

/// The schema outline depends only on the shape of a value: two values of the
/// same shape have the same outline.
pub proof fn law_schema_depends_on_shape(v1: JsonValue, v2: JsonValue, depth: nat)
    requires
        same_shape(v1, v2, depth),
    ensures
        schema(v1, depth) == schema(v2, depth),
    decreases 6 - depth, 1int, 0int,
{
    if depth <= 4 {
        match (v1, v2) {
            (JsonValue::Array(a), JsonValue::Array(b)) => {
                if a@.len() > 0 {
                    law_schema_depends_on_shape(a@[0], b@[0], depth + 1);
                }
            },
            (JsonValue::Object(o), JsonValue::Object(q)) => {
                lemma_entries_depend_on_shape(o@, q@, o@.len(), depth);
            },
            _ => {},
        }
    }
}

proof fn lemma_entries_depend_on_shape(
    o: Seq<(String, JsonValue)>,
    q: Seq<(String, JsonValue)>,
    n: nat,
    depth: nat,
)
    requires
        same_entries(o, q, n, depth),
        n <= o.len(),
        o.len() == q.len(),
    ensures
        schema_entries(o, n, depth) == schema_entries(q, n, depth),
    decreases 6 - depth, 0int, n,
{
    if depth <= 4 && n > 0 {
        law_schema_depends_on_shape(o[n - 1].1, q[n - 1].1, depth + 1);
        lemma_entries_depend_on_shape(o, q, (n - 1) as nat, depth);
    }
}

} // verus!
