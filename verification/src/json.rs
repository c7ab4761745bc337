//! JSON documents: a mathematical model, an executable tree, and the
//! bridge between the two.
//!
//! Field order of objects is kept; numbers are carried as decimal text
//! so that no floating point enters the library.

use vstd::prelude::*;
use vstd::string::StrSliceExecFns;
use crate::text::str_eq;
use crate::text::chars_to_string;

verus! {

/// A JSON document as mathematics: strings are character sequences,
/// arrays and objects are sequences.
pub enum Json {
    Null,
    Bool(bool),
    Num(Seq<char>),
    Str(Seq<char>),
    Arr(Seq<Json>),
    Obj(Seq<(Seq<char>, Json)>),
}

/// An executable JSON tree. `Num` carries a number as decimal text:
/// the dispatch core routes numbers, it does not compute with them.
pub enum JsonValue {
    Null,
    Bool(bool),
    Num(String),
    Str(String),
    Arr(Vec<JsonValue>),
    Obj(Vec<(String, JsonValue)>),
}

/// The mathematical document an executable tree stands for.
pub open spec fn jmodel(v: JsonValue) -> Json
    decreases v,
{
    match v {
        JsonValue::Null => Json::Null,
        JsonValue::Bool(b) => Json::Bool(b),
        JsonValue::Num(s) => Json::Num(s@),
        JsonValue::Str(s) => Json::Str(s@),
        JsonValue::Arr(items) => Json::Arr(jmodel_seq(items@)),
        JsonValue::Obj(fields) => Json::Obj(jmodel_fields(fields@)),
    }
}

pub open spec fn jmodel_seq(s: Seq<JsonValue>) -> Seq<Json>
    decreases s,
{
    if s.len() == 0 {
        Seq::empty()
    } else {
        jmodel_seq(s.drop_last()).push(jmodel(s.last()))
    }
}

pub open spec fn jmodel_fields(s: Seq<(String, JsonValue)>) -> Seq<(Seq<char>, Json)>
    decreases s,
{
    if s.len() == 0 {
        Seq::empty()
    } else {
        jmodel_fields(s.drop_last()).push((s.last().0@, jmodel(s.last().1)))
    }
}

impl DeepView for JsonValue {
    type V = Json;

    open spec fn deep_view(&self) -> Json {
        jmodel(*self)
    }
}

pub proof fn lemma_jmodel_seq(s: Seq<JsonValue>)
    ensures
        jmodel_seq(s).len() == s.len(),
        forall|i: int| 0 <= i < s.len() ==> jmodel_seq(s)[i] == jmodel(s[i]),
    decreases s.len(),
{
    if s.len() > 0 {
        lemma_jmodel_seq(s.drop_last());
    }
}

pub proof fn lemma_jmodel_fields(s: Seq<(String, JsonValue)>)
    ensures
        jmodel_fields(s).len() == s.len(),
        forall|i: int| 0 <= i < s.len() ==> jmodel_fields(s)[i]
            == (s[i].0@, jmodel(s[i].1)),
    decreases s.len(),
{
    if s.len() > 0 {
        lemma_jmodel_fields(s.drop_last());
    }
}

/// The value under a key: the first field of that name, if any.
pub open spec fn jlookup(fields: Seq<(Seq<char>, Json)>, key: Seq<char>) -> Option<Json>
    decreases fields.len(),
{
    if fields.len() == 0 {
        None
    } else if fields[0].0 == key {
        Some(fields[0].1)
    } else {
        jlookup(fields.drop_first(), key)
    }
}

/// A lookup lands on index `k` when the key first occurs there.
pub proof fn lemma_jlookup_at(fields: Seq<(Seq<char>, Json)>, key: Seq<char>, k: int)
    requires
        0 <= k < fields.len(),
        fields[k].0 == key,
        forall|j: int| 0 <= j < k ==> fields[j].0 != key,
    ensures
        jlookup(fields, key) == Some(fields[k].1),
    decreases k,
{
    if k > 0 {
        let tail = fields.drop_first();
        assert(forall|j: int| 0 <= j < tail.len() ==> tail[j] == fields[j + 1]);
        lemma_jlookup_at(tail, key, k - 1);
    }
}

/// A field appended under a different key leaves a lookup unchanged.
pub proof fn lemma_jlookup_push(
    fields: Seq<(Seq<char>, Json)>,
    extra: (Seq<char>, Json),
    key: Seq<char>,
)
    requires
        extra.0 != key,
    ensures
        jlookup(fields.push(extra), key) == jlookup(fields, key),
    decreases fields.len(),
{
    if fields.len() == 0 {
        assert(fields.push(extra).drop_first() =~= Seq::<(Seq<char>, Json)>::empty());
    } else {
        assert(fields.push(extra).drop_first() =~= fields.drop_first().push(extra));
        lemma_jlookup_push(fields.drop_first(), extra, key);
    }
}

/// The member of an object under a key; nothing on any other document.
pub open spec fn jget(j: Json, key: Seq<char>) -> Option<Json> {
    match j {
        Json::Obj(fields) => jlookup(fields, key),
        _ => None,
    }
}

impl JsonValue {
    /// Looks a key up in an object document.
    pub fn get<'a>(&'a self, key: &str) -> (r: Option<&'a JsonValue>)
        ensures
            match r {
                Some(v) => jget(jmodel(*self), key@) == Some(jmodel(*v)),
                None => jget(jmodel(*self), key@) is None,
            },
    {
        match self {
            JsonValue::Obj(fields) => {
                proof {
                    lemma_jmodel_fields(fields@);
                }
                let ghost m = jmodel_fields(fields@);
                proof {
                    assert(m.skip(0) =~= m);
                    assert(jmodel(*self) == Json::Obj(m));
                }
                let mut i: usize = 0;
                while i < fields.len()
                    invariant
                        i <= fields@.len(),
                        m == jmodel_fields(fields@),
                        m.len() == fields@.len(),
                        forall|k: int| 0 <= k < fields@.len() ==> m[k]
                            == (fields@[k].0@, jmodel(fields@[k].1)),
                        jmodel(*self) == Json::Obj(m),
                        jlookup(m, key@) == jlookup(m.skip(i as int), key@),
                    decreases fields@.len() - i,
                {
                    if str_eq(fields[i].0.as_str(), key) {
                        proof {
                            assert(m.skip(i as int)[0] == m[i as int]);
                            assert(m.skip(i as int).len() > 0);
                            assert(jlookup(m.skip(i as int), key@) == Some(m[i as int].1));
                            assert(jmodel(*self) == Json::Obj(m));
                        }
                        return Some(&fields[i].1);
                    }
                    proof {
                        assert(m.skip(i as int)[0] == m[i as int]);
                        assert(m.skip(i as int).drop_first() =~= m.skip(i + 1));
                    }
                    i += 1;
                }
                proof {
                    assert(m.skip(fields@.len() as int) =~= Seq::<(Seq<char>, Json)>::empty());
                }
                None
            },
            _ => None,
        }
    }
}

/// Every key of the object occurs in the allowed list: what strict
/// decoding demands of a declared shape.
pub open spec fn keys_all_allowed(
    fields: Seq<(Seq<char>, Json)>,
    allowed: Seq<Seq<char>>,
) -> bool {
    forall|i: int| 0 <= i < fields.len() ==> allowed.contains(fields[i].0)
}

/// Checks an object's keys against the declared field names.
pub fn check_keys_allowed(fields: &Vec<(String, JsonValue)>, allowed: &Vec<&str>) -> (r: bool)
    ensures
        r == keys_all_allowed(jmodel_fields(fields@), allowed.deep_view()),
{
    let ghost m = jmodel_fields(fields@);
    let ghost al = allowed.deep_view();
    proof {
        lemma_jmodel_fields(fields@);
    }
    let mut i: usize = 0;
    while i < fields.len()
        invariant
            i <= fields@.len(),
            m == jmodel_fields(fields@),
            al == allowed.deep_view(),
            m.len() == fields@.len(),
            al.len() == allowed@.len(),
            forall|k: int| 0 <= k < fields@.len() ==> m[k]
                == (fields@[k].0@, jmodel(fields@[k].1)),
            forall|k: int| 0 <= k < i ==> al.contains(m[k].0),
        decreases fields@.len() - i,
    {
        let key = &fields[i].0;
        let mut found = false;
        let mut j: usize = 0;
        while j < allowed.len()
            invariant
                j <= allowed@.len(),
                al == allowed.deep_view(),
                al.len() == allowed@.len(),
                key@ == fields@[i as int].0@,
                i < fields@.len(),
                found <==> (exists|t: int| 0 <= t < j && al[t] == key@),
            decreases allowed@.len() - j,
        {
            proof {
                assert(al[j as int] == allowed@[j as int]@);
            }
            if str_eq(key.as_str(), allowed[j]) {
                found = true;
            }
            j += 1;
        }
        if !found {
            proof {
                assert(!al.contains(m[i as int].0));
            }
            return false;
        }
        i += 1;
    }
    true
}

/// How one character is written inside a JSON string literal: the two
/// meta characters and every control character below U+0020 are
/// escaped, the named shorthands where JSON has them and `\u00` with
/// two lower-case hex digits otherwise.
pub open spec fn esc_char(c: char) -> Seq<char> {
    if c == '"' {
        seq!['\\', '"']
    } else if c == '\\' {
        seq!['\\', '\\']
    } else if c == '\u{8}' {
        seq!['\\', 'b']
    } else if c == '\t' {
        seq!['\\', 't']
    } else if c == '\n' {
        seq!['\\', 'n']
    } else if c == '\u{c}' {
        seq!['\\', 'f']
    } else if c == '\r' {
        seq!['\\', 'r']
    } else if (c as int) < 32 {
        seq!['\\', 'u', '0', '0', crate::text::hex_digit(c as int / 16),
            crate::text::hex_digit(c as int % 16)]
    } else {
        seq![c]
    }
}

/// How a whole string is written inside a JSON string literal.
pub open spec fn esc_str(s: Seq<char>) -> Seq<char>
    decreases s.len(),
{
    if s.len() == 0 {
        Seq::empty()
    } else {
        esc_str(s.drop_last()) + esc_char(s.last())
    }
}

/// The text the library writes for a document.
pub open spec fn json_text(j: Json) -> Seq<char>
    decreases j,
{
    match j {
        Json::Null => "null"@,
        Json::Bool(b) => if b {
            "true"@
        } else {
            "false"@
        },
        Json::Num(s) => s,
        Json::Str(s) => seq!['"'] + esc_str(s) + seq!['"'],
        Json::Arr(items) => seq!['['] + json_text_items(items) + seq![']'],
        Json::Obj(fields) => seq!['{'] + json_text_fields(fields) + seq!['}'],
    }
}

pub open spec fn json_text_items(items: Seq<Json>) -> Seq<char>
    decreases items,
{
    if items.len() == 0 {
        Seq::empty()
    } else if items.len() == 1 {
        json_text(items.last())
    } else {
        json_text_items(items.drop_last()) + seq![','] + json_text(items.last())
    }
}

pub open spec fn json_text_fields(fields: Seq<(Seq<char>, Json)>) -> Seq<char>
    decreases fields,
{
    if fields.len() == 0 {
        Seq::empty()
    } else if fields.len() == 1 {
        json_text_field(fields.last())
    } else {
        json_text_fields(fields.drop_last()) + seq![','] + json_text_field(fields.last())
    }
}

pub open spec fn json_text_field(field: (Seq<char>, Json)) -> Seq<char>
    decreases field,
{
    seq!['"'] + esc_str(field.0) + seq!['"'] + seq![':'] + json_text(field.1)
}

/// Appends a plain string's characters to the buffer.
fn push_chars(out: &mut Vec<char>, s: &str)
    ensures
        final(out)@ == old(out)@ + s@,
{
    let n = s.unicode_len();
    let mut i: usize = 0;
    while i < n
        invariant
            i <= n,
            n == s@.len(),
            out@ == old(out)@ + s@.subrange(0, i as int),
        decreases n - i,
    {
        out.push(s.get_char(i));
        proof {
            assert(s@.subrange(0, i + 1) =~= s@.subrange(0, i as int).push(s@[i as int]));
        }
        i += 1;
    }
    proof {
        assert(s@.subrange(0, n as int) =~= s@);
    }
}

/// Appends a string's characters in their escaped written form.
fn push_escaped(out: &mut Vec<char>, s: &str)
    ensures
        final(out)@ == old(out)@ + esc_str(s@),
{
    let digits = "0123456789abcdef";
    proof {
        reveal_strlit("0123456789abcdef");
    }
    let n = s.unicode_len();
    let mut i: usize = 0;
    while i < n
        invariant
            i <= n,
            n == s@.len(),
            digits@ == "0123456789abcdef"@,
            digits@.len() == 16,
            out@ == old(out)@ + esc_str(s@.subrange(0, i as int)),
        decreases n - i,
    {
        let c = s.get_char(i);
        if c == '"' {
            out.push('\\');
            out.push('"');
        } else if c == '\\' {
            out.push('\\');
            out.push('\\');
        } else if c == '\u{8}' {
            out.push('\\');
            out.push('b');
        } else if c == '\t' {
            out.push('\\');
            out.push('t');
        } else if c == '\n' {
            out.push('\\');
            out.push('n');
        } else if c == '\u{c}' {
            out.push('\\');
            out.push('f');
        } else if c == '\r' {
            out.push('\\');
            out.push('r');
        } else if (c as u32) < 32 {
            let cu = c as u32;
            out.push('\\');
            out.push('u');
            out.push('0');
            out.push('0');
            out.push(digits.get_char((cu / 16) as usize));
            out.push(digits.get_char((cu % 16) as usize));
        } else {
            out.push(c);
        }
        proof {
            assert(s@.subrange(0, i + 1).drop_last() =~= s@.subrange(0, i as int));
            assert(s@.subrange(0, i + 1).last() == s@[i as int]);
        }
        i += 1;
    }
    proof {
        assert(s@.subrange(0, n as int) =~= s@);
    }
}

/// Writes a document's text after whatever the buffer already holds.
pub fn encode_json(j: &JsonValue, out: &mut Vec<char>)
    ensures
        final(out)@ == old(out)@ + json_text(jmodel(*j)),
    decreases *j,
{
    match j {
        JsonValue::Null => {
            push_chars(out, "null");
        },
        JsonValue::Bool(b) => {
            if *b {
                push_chars(out, "true");
            } else {
                push_chars(out, "false");
            }
        },
        JsonValue::Num(s) => {
            push_chars(out, s.as_str());
        },
        JsonValue::Str(s) => {
            out.push('"');
            push_escaped(out, s.as_str());
            out.push('"');
        },
        JsonValue::Arr(items) => {
            out.push('[');
            let ghost m = jmodel_seq(items@);
            proof {
                lemma_jmodel_seq(items@);
            }
            let mut i: usize = 0;
            while i < items.len()
                invariant
                    i <= items@.len(),
                    m == jmodel_seq(items@),
                    m.len() == items@.len(),
                    forall|k: int| 0 <= k < items@.len() ==> m[k] == jmodel(items@[k]),
                    out@ == old(out)@ + seq!['[']
                        + json_text_items(jmodel_seq(items@.subrange(0, i as int))),
                    *j == JsonValue::Arr(*items),
                decreases items@.len() - i,
            {
                if i > 0 {
                    out.push(',');
                }
                proof {
                    assert(j->Arr_0 == *items);
                    assert(decreases_to!(*j => j->Arr_0));
                    assert(decreases_to!(*items => items@));
                    assert(decreases_to!(items@ => items@[i as int]));
                }
                encode_json(&items[i], out);
                proof {
                    let pre = items@.subrange(0, i as int);
                    let step = items@.subrange(0, i + 1);
                    assert(step.drop_last() =~= pre);
                    assert(step.last() == items@[i as int]);
                    lemma_jmodel_seq(pre);
                    lemma_jmodel_seq(step);
                    assert(jmodel_seq(step).drop_last() =~= jmodel_seq(pre));
                    assert(jmodel_seq(step).last() == jmodel(items@[i as int]));
                    assert(jmodel_seq(step).len() == i + 1);
                }
                i += 1;
            }
            out.push(']');
            proof {
                assert(items@.subrange(0, items@.len() as int) =~= items@);
            }
        },
        JsonValue::Obj(fields) => {
            out.push('{');
            let ghost m = jmodel_fields(fields@);
            proof {
                lemma_jmodel_fields(fields@);
            }
            let mut i: usize = 0;
            while i < fields.len()
                invariant
                    i <= fields@.len(),
                    m == jmodel_fields(fields@),
                    m.len() == fields@.len(),
                    forall|k: int| 0 <= k < fields@.len() ==> m[k]
                        == (fields@[k].0@, jmodel(fields@[k].1)),
                    out@ == old(out)@ + seq!['{']
                        + json_text_fields(jmodel_fields(fields@.subrange(0, i as int))),
                    *j == JsonValue::Obj(*fields),
                decreases fields@.len() - i,
            {
                if i > 0 {
                    out.push(',');
                }
                out.push('"');
                push_escaped(out, fields[i].0.as_str());
                out.push('"');
                out.push(':');
                proof {
                    assert(j->Obj_0 == *fields);
                    assert(decreases_to!(*j => j->Obj_0));
                    assert(decreases_to!(*fields => fields@));
                    assert(decreases_to!(fields@ => fields@[i as int]));
                    assert(decreases_to!(fields@[i as int] => fields@[i as int].1));
                }
                encode_json(&fields[i].1, out);
                proof {
                    let pre = fields@.subrange(0, i as int);
                    let step = fields@.subrange(0, i + 1);
                    assert(step.drop_last() =~= pre);
                    assert(step.last() == fields@[i as int]);
                    lemma_jmodel_fields(pre);
                    lemma_jmodel_fields(step);
                    assert(jmodel_fields(step).drop_last() =~= jmodel_fields(pre));
                    assert(jmodel_fields(step).last()
                        == (fields@[i as int].0@, jmodel(fields@[i as int].1)));
                    assert(jmodel_fields(step).len() == i + 1);
                    let q = jmodel_fields(step);
                    if i == 0 {
                        assert(json_text_fields(q) == json_text_field(q.last()));
                    } else {
                        assert(json_text_fields(q)
                            == json_text_fields(q.drop_last()) + seq![','] + json_text_field(q.last()));
                        assert(json_text_fields(q.drop_last()) == json_text_fields(jmodel_fields(pre)));
                    }
                    assert(out@ =~= old(out)@ + seq!['{'] + json_text_fields(q));
                }
                i += 1;
            }
            out.push('}');
            proof {
                assert(fields@.subrange(0, fields@.len() as int) =~= fields@);
            }
        },
    }
}

/// The text of a whole document.
pub fn json_to_string(j: &JsonValue) -> (r: String)
    ensures
        r@ == json_text(jmodel(*j)),
{
    let mut out: Vec<char> = Vec::new();
    encode_json(j, &mut out);
    chars_to_string(&out)
}

#[verifier::external_type_specification]
#[verifier::external_body]
pub struct ExSerdeValue(serde_json::Value);

/// What serde_json's parsed tree holds, as the library's JSON model.
pub uninterp spec fn serde_model(v: serde_json::Value) -> Json;

/// What parsing a JSON document yields: the parse depends on the text
/// alone, and fails on text the parser does not accept.
pub uninterp spec fn json_parse_of(s: Seq<char>) -> Option<Json>;

/// Relies on serde_json::from_str::<serde_json::Value>: it accepts
/// exactly the JSON documents serde_json parses, deterministically in
/// the text.
#[verifier::external_body]
fn parse_serde(s: &str) -> (r: Option<serde_json::Value>)
    ensures
        match r {
            Some(v) => json_parse_of(s@) == Some(serde_model(v)),
            None => json_parse_of(s@) is None,
        },
{
    serde_json::from_str::<serde_json::Value>(s).ok()
}

/// Relies on serde_json::Value: hands the parsed tree out variant by
/// variant as the library's tree; numbers are rendered to decimal text.
#[verifier::external_body]
fn serde_to_tree(v: &serde_json::Value) -> (r: JsonValue)
    ensures
        jmodel(r) == serde_model(*v),
{
    match v {
        serde_json::Value::Null => JsonValue::Null,
        serde_json::Value::Bool(b) => JsonValue::Bool(*b),
        serde_json::Value::Number(n) => JsonValue::Num(n.to_string()),
        serde_json::Value::String(s) => JsonValue::Str(s.clone()),
        serde_json::Value::Array(a) => JsonValue::Arr(a.iter().map(serde_to_tree).collect()),
        serde_json::Value::Object(m) => JsonValue::Obj(
            m.iter().map(|(k, x)| (k.clone(), serde_to_tree(x))).collect(),
        ),
    }
}

/// Parses a JSON document into the library's tree.
pub fn parse_json(s: &str) -> (r: Option<JsonValue>)
    ensures
        match r {
            Some(t) => json_parse_of(s@) == Some(jmodel(t)),
            None => json_parse_of(s@) is None,
        },
{
    match parse_serde(s) {
        Some(v) => Some(serde_to_tree(&v)),
        None => None,
    }
}

} // verus!
