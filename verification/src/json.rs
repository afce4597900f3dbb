use vstd::prelude::*;
use vstd::utf8::{decode_utf8, valid_utf8};
use crate::assoc::assoc_lookup;
use crate::keyed::KeyedList;

verus! {

/// A JSON document. Numbers keep their text, as nothing here computes with them.
#[derive(Debug)]
pub enum JsonValue {
    Null,
    Bool(bool),
    Number(String),
    String(String),
    Array(Vec<JsonValue>),
    /// Members in the order the parser gives them: that of `serde_json::Map`,
    /// sorted by key, each key once (a repeated key keeps its last value).
    Object(Vec<(String, JsonValue)>),
}

#[verifier::external_type_specification]
#[verifier::external_body]
pub struct ExSerdeJsonValue(serde_json::Value);

/// The document that `serde_json::from_str::<serde_json::Value>` reads from a
/// text, as a `JsonValue`; `None` when the text is not one JSON value.
pub uninterp spec fn json_document(text: Seq<char>) -> Option<JsonValue>;

/// `serde_json::from_str::<serde_json::Value>`, the value turned variant by
/// variant into a `JsonValue` (numbers by their text, object members in the
/// order of `serde_json::Map`). The contract names the result; what it is for
/// a given text is left to the name.
#[verifier::external_body]
pub fn parse_json(text: &str) -> (r: Option<JsonValue>)
    ensures
        r == json_document(text@),
{
    match serde_json::from_str::<serde_json::Value>(text) {
        Ok(v) => Some(json_from_serde(v)),
        Err(_) => None,
    }
}

/// The `JsonValue` that stands for a `serde_json::Value`, one variant for
/// each variant, members and items in the order the value holds them.
#[verifier::external_body]
fn json_from_serde(v: serde_json::Value) -> JsonValue {
    match v {
        serde_json::Value::Null => JsonValue::Null,
        serde_json::Value::Bool(b) => JsonValue::Bool(b),
        serde_json::Value::Number(n) => JsonValue::Number(n.to_string()),
        serde_json::Value::String(s) => JsonValue::String(s),
        serde_json::Value::Array(items) => JsonValue::Array(items.into_iter().map(json_from_serde).collect()),
        serde_json::Value::Object(m) => JsonValue::Object(m.into_iter().map(|(k, v)| (k, json_from_serde(v))).collect()),
    }
}

/// `std::str::from_utf8`: the text of bytes that are valid UTF-8, whose
/// characters are those the bytes encode; `None` for any other bytes.
#[verifier::external_body]
pub fn utf8_text(bytes: &[u8]) -> (r: Option<&str>)
    ensures
        r is Some <==> valid_utf8(bytes@),
        r matches Some(s) ==> s@ == decode_utf8(bytes@),
{
    std::str::from_utf8(bytes).ok()
}

/// The key of a member under a prefix: the member's key alone at the top,
/// else the prefix, a dot and the key.
pub open spec fn child_key(prefix: Seq<char>, key: Seq<char>) -> Seq<char> {
    if prefix.len() == 0 {
        key
    } else {
        prefix + "."@ + key
    }
}

/// The messages a JSON value adds under `prefix` to those in `acc`: a string
/// is stored under the prefix itself, an object's members are flattened in
/// order under their child keys (later ones overwrite earlier ones), and
/// anything else adds nothing.
pub open spec fn flatten_into(prefix: Seq<char>, v: JsonValue, acc: Map<Seq<char>, Seq<char>>) -> Map<Seq<char>, Seq<char>>
    decreases v, 0int,
{
    match v {
        JsonValue::Object(members) => flatten_members(prefix, members@, members@.len() as int, acc),
        JsonValue::String(s) => acc.insert(prefix, s@),
        _ => acc,
    }
}

/// The messages added by the first `n` members of an object under `prefix`.
pub open spec fn flatten_members(
    prefix: Seq<char>,
    members: Seq<(String, JsonValue)>,
    n: int,
    acc: Map<Seq<char>, Seq<char>>,
) -> Map<Seq<char>, Seq<char>>
    decreases members, n,
{
    if n <= 0 || n > members.len() {
        acc
    } else {
        flatten_into(
            child_key(prefix, members[n - 1].0@),
            members[n - 1].1,
            flatten_members(prefix, members, n - 1, acc),
        )
    }
}

/// Flattens nested JSON into dot-separated keys: `{"errors": {"not_found": "..."}}`
/// becomes `{"errors.not_found": "..."}`.
pub fn flatten_json(prefix: &str, value: &JsonValue, output: &mut KeyedList<String>)
    requires
        old(output).wf(),
    ensures
        final(output).wf(),
        final(output)@ == flatten_into(prefix@, *value, old(output)@),
    decreases value,
{
    match value {
        JsonValue::Object(members) => {
            let mut i: usize = 0;
            while i < members.len()
                invariant
                    i <= members.len(),
                    output.wf(),
                    output@ == flatten_members(prefix@, members@, i as int, old(output)@),
                    *value == JsonValue::Object(*members),
                decreases members.len() - i,
            {
                let new_prefix = if prefix.is_empty() {
                    members[i].0.clone()
                } else {
                    String::from_str(prefix).concat(".").concat(members[i].0.as_str())
                };
                proof {
                    assert(new_prefix@ == child_key(prefix@, members@[i as int].0@));
                    assert(*members == value->Object_0);
                    assert(decreases_to!(*value => value->Object_0));
                    assert(decreases_to!(*members => members@)) by {
                        broadcast use vstd::std_specs::vec::axiom_vec_decreases_to_view;
                    }
                    assert(decreases_to!(members@ => members@[i as int])) by {
                        broadcast use vstd::seq::axiom_seq_index_decreases;
                    }
                    assert(decreases_to!(members@[i as int] => members@[i as int].1));
                    assert(decreases_to!(*value => members@[i as int].1));
                }
                flatten_json(new_prefix.as_str(), &members[i].1, output);
                i = i + 1;
            }
        },
        JsonValue::String(s) => {
            output.insert(String::from_str(prefix), s.clone());
        },
        _ => {},
    }
}

pub open spec fn members_model(members: Seq<(String, JsonValue)>) -> Seq<(Seq<char>, JsonValue)> {
    members.map_values(|e: (String, JsonValue)| (e.0@, e.1))
}

/// The value found by following a path of object keys from `v` (the first
/// member with each key).
pub open spec fn json_at(v: JsonValue, path: Seq<Seq<char>>) -> Option<JsonValue>
    decreases path.len(),
{
    if path.len() == 0 {
        Some(v)
    } else {
        match v {
            JsonValue::Object(members) => match assoc_lookup(members_model(members@), path[0]) {
                Some(c) => json_at(c, path.drop_first()),
                None => None,
            },
            _ => None,
        }
    }
}

/// The flattened key of a path under a prefix: its keys joined by dots.
pub open spec fn dotted(prefix: Seq<char>, path: Seq<Seq<char>>) -> Seq<char>
    decreases path.len(),
{
    if path.len() == 0 {
        prefix
    } else {
        dotted(child_key(prefix, path[0]), path.drop_first())
    }
}

/// The value found by following a path of member positions from `v`.
pub open spec fn json_at_index(v: JsonValue, ip: Seq<int>) -> Option<JsonValue>
    decreases ip.len(),
{
    if ip.len() == 0 {
        Some(v)
    } else {
        match v {
            JsonValue::Object(members) => if 0 <= ip[0] < members@.len() {
                json_at_index(members@[ip[0]].1, ip.drop_first())
            } else {
                None
            },
            _ => None,
        }
    }
}

/// The string found at a path of member positions, if it leads to one.
pub open spec fn string_leaf(v: JsonValue, ip: Seq<int>) -> Option<Seq<char>> {
    match json_at_index(v, ip) {
        Some(JsonValue::String(s)) => Some(s@),
        _ => None,
    }
}

/// The flattened key of a path of member positions under a prefix.
pub open spec fn key_at_index(prefix: Seq<char>, v: JsonValue, ip: Seq<int>) -> Seq<char>
    decreases ip.len(),
{
    if ip.len() == 0 {
        prefix
    } else {
        match v {
            JsonValue::Object(members) => if 0 <= ip[0] < members@.len() {
                key_at_index(child_key(prefix, members@[ip[0]].0@), members@[ip[0]].1, ip.drop_first())
            } else {
                prefix
            },
            _ => prefix,
        }
    }
}

/// The path of member positions `a` comes after `b` in document order.
pub open spec fn comes_after(a: Seq<int>, b: Seq<int>) -> bool
    decreases a.len(),
{
    &&& a.len() > 0
    &&& b.len() > 0
    &&& (a[0] > b[0] || (a[0] == b[0] && comes_after(a.drop_first(), b.drop_first())))
}

/// Every string of `v` that flattens under `prefix` to the key `t` is `m`.
pub open spec fn leaves_at_key_are(prefix: Seq<char>, v: JsonValue, t: Seq<char>, m: Seq<char>) -> bool {
    forall|ip: Seq<int>|
        #[trigger] string_leaf(v, ip) is Some && key_at_index(prefix, v, ip) == t ==> string_leaf(v, ip) == Some(m)
}

/// Every string of `v` after position `ip` that flattens under `prefix` to
/// the key `t` is `m`.
pub open spec fn later_leaves_at_key_are(prefix: Seq<char>, v: JsonValue, ip: Seq<int>, t: Seq<char>, m: Seq<char>) -> bool {
    forall|ip2: Seq<int>|
        comes_after(ip2, ip) && #[trigger] string_leaf(v, ip2) is Some && key_at_index(prefix, v, ip2) == t
            ==> string_leaf(v, ip2) == Some(m)
}

proof fn lemma_step_index(j: int, ip: Seq<int>)
    ensures
        (seq![j] + ip).len() == ip.len() + 1,
        (seq![j] + ip)[0] == j,
        (seq![j] + ip).drop_first() == ip,
{
    assert((seq![j] + ip).drop_first() =~= ip);
}

/// Flattening keeps `t` at `m` when every string that it writes under `t` is `m`.
proof fn lemma_flatten_keeps(prefix: Seq<char>, v: JsonValue, acc: Map<Seq<char>, Seq<char>>, t: Seq<char>, m: Seq<char>)
    requires
        acc.contains_key(t) && acc[t] == m,
        leaves_at_key_are(prefix, v, t, m),
    ensures
        flatten_into(prefix, v, acc).contains_key(t) && flatten_into(prefix, v, acc)[t] == m,
    decreases v, 0int,
{
    match v {
        JsonValue::Object(members) => {
            assert forall|j: int, ip: Seq<int>|
                0 <= j < members@.len() && #[trigger] string_leaf(members@[j].1, ip) is Some && key_at_index(
                    child_key(prefix, members@[j].0@),
                    members@[j].1,
                    ip,
                ) == t implies string_leaf(members@[j].1, ip) == Some(m) by {
                lemma_step_index(j, ip);
                assert(string_leaf(v, seq![j] + ip) == string_leaf(members@[j].1, ip));
            }
            lemma_flatten_members_keep(prefix, members@, members@.len() as int, acc, t, m);
        },
        JsonValue::String(s) => {
            assert(string_leaf(v, seq![]) == Some(s@));
        },
        _ => {},
    }
}

proof fn lemma_flatten_members_keep(
    prefix: Seq<char>,
    members: Seq<(String, JsonValue)>,
    n: int,
    acc: Map<Seq<char>, Seq<char>>,
    t: Seq<char>,
    m: Seq<char>,
)
    requires
        acc.contains_key(t) && acc[t] == m,
        forall|j: int, ip: Seq<int>|
            0 <= j < members.len() && #[trigger] string_leaf(members[j].1, ip) is Some && key_at_index(
                child_key(prefix, members[j].0@),
                members[j].1,
                ip,
            ) == t ==> string_leaf(members[j].1, ip) == Some(m),
    ensures
        flatten_members(prefix, members, n, acc).contains_key(t) && flatten_members(prefix, members, n, acc)[t] == m,
    decreases members, n,
{
    if 0 < n <= members.len() {
        lemma_flatten_members_keep(prefix, members, n - 1, acc, t, m);
        let c = child_key(prefix, members[n - 1].0@);
        assert(leaves_at_key_are(c, members[n - 1].1, t, m));
        lemma_flatten_keeps(c, members[n - 1].1, flatten_members(prefix, members, n - 1, acc), t, m);
    }
}

/// The members after the one at `i` keep `t` at `m` when their strings
/// written under `t` are `m`.
proof fn lemma_later_members_keep(
    prefix: Seq<char>,
    members: Seq<(String, JsonValue)>,
    i: int,
    n: int,
    acc: Map<Seq<char>, Seq<char>>,
    t: Seq<char>,
    m: Seq<char>,
)
    requires
        0 <= i < n <= members.len(),
        flatten_members(prefix, members, i + 1, acc).contains_key(t),
        flatten_members(prefix, members, i + 1, acc)[t] == m,
        forall|j: int, ip: Seq<int>|
            i < j < members.len() && #[trigger] string_leaf(members[j].1, ip) is Some && key_at_index(
                child_key(prefix, members[j].0@),
                members[j].1,
                ip,
            ) == t ==> string_leaf(members[j].1, ip) == Some(m),
    ensures
        flatten_members(prefix, members, n, acc).contains_key(t),
        flatten_members(prefix, members, n, acc)[t] == m,
    decreases n,
{
    if n > i + 1 {
        lemma_later_members_keep(prefix, members, i, n - 1, acc, t, m);
        let c = child_key(prefix, members[n - 1].0@);
        assert(leaves_at_key_are(c, members[n - 1].1, t, m));
        lemma_flatten_keeps(c, members[n - 1].1, flatten_members(prefix, members, n - 1, acc), t, m);
    }
}

/// A string at a path of member positions is stored, once flattened, under
/// that path's key, unless a later string of the document is flattened to
/// the same key with another text.
pub proof fn lemma_flatten_finds_leaf(
    prefix: Seq<char>,
    v: JsonValue,
    ip: Seq<int>,
    acc: Map<Seq<char>, Seq<char>>,
    m: Seq<char>,
)
    requires
        string_leaf(v, ip) == Some(m),
        later_leaves_at_key_are(prefix, v, ip, key_at_index(prefix, v, ip), m),
    ensures
        flatten_into(prefix, v, acc).contains_key(key_at_index(prefix, v, ip)),
        flatten_into(prefix, v, acc)[key_at_index(prefix, v, ip)] == m,
    decreases ip.len(),
{
    let t = key_at_index(prefix, v, ip);
    if ip.len() > 0 {
        match v {
            JsonValue::Object(members) => {
                let ms = members@;
                let i = ip[0];
                let rest = ip.drop_first();
                let c = child_key(prefix, ms[i].0@);
                assert(t == key_at_index(c, ms[i].1, rest));
                assert forall|ip2: Seq<int>|
                    comes_after(ip2, rest) && #[trigger] string_leaf(ms[i].1, ip2) is Some && key_at_index(c, ms[i].1, ip2)
                        == t implies string_leaf(ms[i].1, ip2) == Some(m) by {
                    lemma_step_index(i, ip2);
                    assert(comes_after(seq![i] + ip2, ip));
                    assert(string_leaf(v, seq![i] + ip2) == string_leaf(ms[i].1, ip2));
                }
                lemma_flatten_finds_leaf(c, ms[i].1, rest, flatten_members(prefix, ms, i, acc), m);
                assert forall|j: int, ip2: Seq<int>|
                    i < j < ms.len() && #[trigger] string_leaf(ms[j].1, ip2) is Some && key_at_index(
                        child_key(prefix, ms[j].0@),
                        ms[j].1,
                        ip2,
                    ) == t implies string_leaf(ms[j].1, ip2) == Some(m) by {
                    lemma_step_index(j, ip2);
                    assert(comes_after(seq![j] + ip2, ip));
                    assert(string_leaf(v, seq![j] + ip2) == string_leaf(ms[j].1, ip2));
                }
                lemma_later_members_keep(prefix, ms, i, ms.len() as int, acc, t, m);
            },
            _ => {},
        }
    }
}

/// Position of the first entry with the key, or -1 when there is none.
pub open spec fn first_index<V>(entries: Seq<(Seq<char>, V)>, key: Seq<char>) -> int
    decreases entries.len(),
{
    if entries.len() == 0 {
        -1
    } else if entries[0].0 == key {
        0
    } else {
        let r = first_index(entries.drop_first(), key);
        if r < 0 {
            -1
        } else {
            r + 1
        }
    }
}

proof fn lemma_first_index<V>(entries: Seq<(Seq<char>, V)>, key: Seq<char>)
    ensures
        assoc_lookup(entries, key) is Some <==> first_index(entries, key) >= 0,
        first_index(entries, key) >= 0 ==> {
            let i = first_index(entries, key);
            &&& i < entries.len()
            &&& entries[i].0 == key
            &&& assoc_lookup(entries, key) == Some(entries[i].1)
        },
    decreases entries.len(),
{
    if entries.len() > 0 && entries[0].0 != key {
        lemma_first_index(entries.drop_first(), key);
    }
}

/// The member positions that a path of object keys follows (the first
/// member with each key).
pub open spec fn index_path_of(v: JsonValue, path: Seq<Seq<char>>) -> Seq<int>
    decreases path.len(),
{
    if path.len() == 0 {
        seq![]
    } else {
        match v {
            JsonValue::Object(members) => {
                let i = first_index(members_model(members@), path[0]);
                if i < 0 {
                    seq![]
                } else {
                    seq![i] + index_path_of(members@[i].1, path.drop_first())
                }
            },
            _ => seq![],
        }
    }
}

proof fn lemma_index_path(prefix: Seq<char>, v: JsonValue, path: Seq<Seq<char>>)
    requires
        json_at(v, path) is Some,
    ensures
        json_at_index(v, index_path_of(v, path)) == json_at(v, path),
        key_at_index(prefix, v, index_path_of(v, path)) == dotted(prefix, path),
    decreases path.len(),
{
    if path.len() > 0 {
        match v {
            JsonValue::Object(members) => {
                let model = members_model(members@);
                lemma_first_index(model, path[0]);
                let i = first_index(model, path[0]);
                let c = members@[i].1;
                assert(model[i].0 == members@[i].0@);
                lemma_index_path(child_key(prefix, path[0]), c, path.drop_first());
                lemma_step_index(i, index_path_of(c, path.drop_first()));
            },
            _ => {},
        }
    }
}

/// A string found by following a path of object keys is stored, once
/// flattened, under the keys of that path joined by dots, unless a later
/// string of the document is flattened to the same key with another text.
pub proof fn lemma_flatten_finds_nested(
    prefix: Seq<char>,
    v: JsonValue,
    path: Seq<Seq<char>>,
    acc: Map<Seq<char>, Seq<char>>,
    m: Seq<char>,
)
    requires
        json_at(v, path) matches Some(JsonValue::String(s)) && s@ == m,
        later_leaves_at_key_are(prefix, v, index_path_of(v, path), dotted(prefix, path), m),
    ensures
        flatten_into(prefix, v, acc).contains_key(dotted(prefix, path)),
        flatten_into(prefix, v, acc)[dotted(prefix, path)] == m,
{
    lemma_index_path(prefix, v, path);
    let ip = index_path_of(v, path);
    assert(string_leaf(v, ip) == Some(m));
    lemma_flatten_finds_leaf(prefix, v, ip, acc, m);
}

} // verus!
