//! A JSON value tree and its textual rendering.
//!
//! `Json` is the executable tree; `JsonV` is its mathematical counterpart,
//! with character sequences in place of strings. Rendering is specified by
//! [`spec_render`] and implemented by [`render_json`]. Floating-point numbers
//! never appear as machine floats here: a `Float` node carries the canonical
//! decimal text of the number, produced by the scalar coercion layer.

use vstd::prelude::*;
use crate::text::{
    dec_digits, int_text, i64_text, u64_digits,
};

verus! {

/// A mathematical JSON value: the specification-level model of [`Json`].
pub enum JsonV {
    Null,
    Bool(bool),
    Int(i64),
    UInt(u64),
    /// A floating-point number, carried as its canonical decimal text.
    Float(Seq<char>),
    Str(Seq<char>),
    Array(Seq<JsonV>),
    Object(Seq<(Seq<char>, JsonV)>),
}

/// An executable JSON value tree.
#[derive(Debug)]
pub enum Json {
    Null,
    Bool(bool),
    Int(i64),
    UInt(u64),
    /// A floating-point number, carried as its canonical decimal text.
    Float(String),
    Str(String),
    Array(Vec<Json>),
    /// Object members in encounter order; rendering preserves this order.
    Object(Vec<(String, Json)>),
}

#[verifier::opaque]
pub open spec fn json_view(j: Json) -> JsonV
    decreases j, 0int,
{
    match j {
        Json::Null => JsonV::Null,
        Json::Bool(b) => JsonV::Bool(b),
        Json::Int(i) => JsonV::Int(i),
        Json::UInt(u) => JsonV::UInt(u),
        Json::Float(s) => JsonV::Float(s@),
        Json::Str(s) => JsonV::Str(s@),
        Json::Array(v) => JsonV::Array(json_view_list(v@)),
        Json::Object(v) => JsonV::Object(json_view_obj(v@)),
    }
}

#[verifier::opaque]
pub open spec fn json_view_list(s: Seq<Json>) -> Seq<JsonV>
    decreases s, 1int,
{
    if s.len() == 0 {
        Seq::empty()
    } else {
        seq![json_view(s[0])] + json_view_list(s.drop_first())
    }
}

#[verifier::opaque]
pub open spec fn json_view_obj(s: Seq<(String, Json)>) -> Seq<(Seq<char>, JsonV)>
    decreases s, 1int,
{
    if s.len() == 0 {
        Seq::empty()
    } else {
        seq![(s[0].0@, json_view(s[0].1))] + json_view_obj(s.drop_first())
    }
}

impl View for Json {
    type V = JsonV;

    open spec fn view(&self) -> JsonV {
        json_view(*self)
    }
}

pub proof fn lemma_json_view_list(s: Seq<Json>)
    ensures
        json_view_list(s).len() == s.len(),
        forall|i: int|
            0 <= i < s.len() ==> json_view_list(s)[i] == json_view(#[trigger] s[i]),
    decreases s.len(),
{
    reveal(crate::json::json_view);
    reveal(json_view_list);
    if s.len() > 0 {
        lemma_json_view_list(s.drop_first());
        assert forall|i: int| 0 <= i < s.len() implies json_view_list(s)[i] == json_view(
            #[trigger] s[i],
        ) by {
            if i > 0 {
                assert(json_view_list(s)[i] == json_view_list(s.drop_first())[i - 1]);
                assert(s.drop_first()[i - 1] == s[i]);
            }
        }
    }
}

pub proof fn lemma_json_view_obj(s: Seq<(String, Json)>)
    ensures
        json_view_obj(s).len() == s.len(),
        forall|i: int|
            0 <= i < s.len() ==> json_view_obj(s)[i] == ((#[trigger] s[i]).0@, json_view(
                s[i].1,
            )),
    decreases s.len(),
{
    reveal(crate::json::json_view);
    reveal(json_view_obj);
    if s.len() > 0 {
        lemma_json_view_obj(s.drop_first());
        assert forall|i: int| 0 <= i < s.len() implies json_view_obj(s)[i] == ((
        #[trigger] s[i]).0@, json_view(s[i].1)) by {
            if i > 0 {
                assert(json_view_obj(s)[i] == json_view_obj(s.drop_first())[i - 1]);
                assert(s.drop_first()[i - 1] == s[i]);
            }
        }
    }
}

/// `json_view_obj` of a sequence extended by one member.
pub proof fn lemma_json_view_obj_push(s: Seq<(String, Json)>, k: String, x: Json)
    ensures
        json_view_obj(s.push((k, x))) == json_view_obj(s).push((k@, json_view(x))),
{
    lemma_json_view_obj(s.push((k, x)));
    lemma_json_view_obj(s);
    assert forall|i: int|
        0 <= i < s.len() + 1 implies json_view_obj(s.push((k, x)))[i] == json_view_obj(s).push(
        (k@, json_view(x)),
    )[i] by {
        assert(json_view_obj(s.push((k, x)))[i] == (s.push((k, x))[i].0@, json_view(
            s.push((k, x))[i].1,
        )));
        if i < s.len() {
            assert(s.push((k, x))[i] == s[i]);
            assert(json_view_obj(s).push((k@, json_view(x)))[i] == json_view_obj(s)[i]);
        } else {
            assert(s.push((k, x))[i] == (k, x));
        }
    }
    assert(json_view_obj(s.push((k, x))) =~= json_view_obj(s).push((k@, json_view(x))));
}

/// How `json_view` acts on each shape of tree.
pub proof fn lemma_json_view(j: Json)
    ensures
        json_view(j) == (match j {
            Json::Null => JsonV::Null,
            Json::Bool(b) => JsonV::Bool(b),
            Json::Int(i) => JsonV::Int(i),
            Json::UInt(u) => JsonV::UInt(u),
            Json::Float(s) => JsonV::Float(s@),
            Json::Str(s) => JsonV::Str(s@),
            Json::Array(v) => JsonV::Array(json_view_list(v@)),
            Json::Object(v) => JsonV::Object(json_view_obj(v@)),
        }),
{
    reveal(json_view);
    reveal(json_view_list);
    reveal(json_view_obj);
    match j {
        Json::Null => {
            assert(json_view(j) == JsonV::Null);
        },
        Json::Bool(b) => {
            assert(json_view(j) == JsonV::Bool(b));
        },
        Json::Int(i) => {
            assert(json_view(j) == JsonV::Int(i));
        },
        Json::UInt(u) => {
            assert(json_view(j) == JsonV::UInt(u));
        },
        Json::Float(s) => {
            assert(json_view(j) == JsonV::Float(s@));
        },
        Json::Str(s) => {
            assert(json_view(j) == JsonV::Str(s@));
        },
        Json::Array(v) => {
            assert(json_view(j) == JsonV::Array(json_view_list(v@)));
        },
        Json::Object(v) => {
            assert(json_view(j) == JsonV::Object(json_view_obj(v@)));
        },
    }
}

/// The view of an empty member list.
pub proof fn lemma_json_view_obj_empty()
    ensures
        json_view_obj(Seq::empty()) == Seq::<(Seq<char>, JsonV)>::empty(),
{
    reveal(json_view_obj);
}

/// The view of an empty element list.
pub proof fn lemma_json_view_list_empty()
    ensures
        json_view_list(Seq::empty()) == Seq::<JsonV>::empty(),
{
    reveal(json_view_list);
}

// ===== string escaping =====

/// The lowercase hexadecimal digit character for `d` (0 through 15).
pub open spec fn hex_char(d: int) -> char {
    if d == 0 { '0' }
    else if d == 1 { '1' }
    else if d == 2 { '2' }
    else if d == 3 { '3' }
    else if d == 4 { '4' }
    else if d == 5 { '5' }
    else if d == 6 { '6' }
    else if d == 7 { '7' }
    else if d == 8 { '8' }
    else if d == 9 { '9' }
    else if d == 10 { 'a' }
    else if d == 11 { 'b' }
    else if d == 12 { 'c' }
    else if d == 13 { 'd' }
    else if d == 14 { 'e' }
    else { 'f' }
}

/// How one character appears inside a rendered JSON string: quotes and
/// backslashes are escaped, control characters use the short escapes where
/// they exist and `\u00..` otherwise, and everything else stands verbatim.
pub open spec fn esc_char(c: char) -> Seq<char> {
    if c == '"' {
        seq!['\\', '"']
    } else if c == '\\' {
        seq!['\\', '\\']
    } else if c == '\u{8}' {
        seq!['\\', 'b']
    } else if c == '\u{c}' {
        seq!['\\', 'f']
    } else if c == '\n' {
        seq!['\\', 'n']
    } else if c == '\r' {
        seq!['\\', 'r']
    } else if c == '\t' {
        seq!['\\', 't']
    } else if (c as u32) < 32 {
        seq!['\\', 'u', '0', '0', hex_char((c as u32 / 16) as int), hex_char((c as u32 % 16) as int)]
    } else {
        seq![c]
    }
}

pub open spec fn esc_str(s: Seq<char>) -> Seq<char>
    decreases s.len(),
{
    if s.len() == 0 {
        Seq::empty()
    } else {
        esc_char(s[0]) + esc_str(s.drop_first())
    }
}

pub proof fn lemma_esc_str_snoc(s: Seq<char>, c: char)
    ensures
        esc_str(s.push(c)) == esc_str(s) + esc_char(c),
    decreases s.len(),
{
    let p = s.push(c);
    if s.len() == 0 {
        assert(esc_str(Seq::<char>::empty()) == Seq::<char>::empty());
        assert(p.drop_first() =~= Seq::<char>::empty());
        assert(p[0] == c);
        assert(esc_str(p) == esc_char(c) + Seq::<char>::empty());
        assert(esc_str(p) =~= esc_str(s) + esc_char(c));
    } else {
        lemma_esc_str_snoc(s.drop_first(), c);
        assert(p.drop_first() =~= s.drop_first().push(c));
        assert(p[0] == s[0]);
        assert(esc_str(p) == esc_char(s[0]) + (esc_str(s.drop_first()) + esc_char(c)));
        assert(esc_str(p) =~= (esc_char(s[0]) + esc_str(s.drop_first())) + esc_char(c));
    }
}

/// A rendered JSON string: the escaped characters between double quotes.
pub open spec fn quoted(s: Seq<char>) -> Seq<char> {
    seq!['"'] + esc_str(s) + seq!['"']
}

// ===== rendering =====

/// The text that a JSON value renders to: compact form, no added spaces,
/// object members in encounter order.
pub open spec fn spec_render(v: JsonV) -> Seq<char>
    decreases v, 0int,
{
    match v {
        JsonV::Null => seq!['n', 'u', 'l', 'l'],
        JsonV::Bool(b) => if b {
            seq!['t', 'r', 'u', 'e']
        } else {
            seq!['f', 'a', 'l', 's', 'e']
        },
        JsonV::Int(i) => int_text(i as int),
        JsonV::UInt(u) => dec_digits(u as nat),
        JsonV::Float(t) => t,
        JsonV::Str(s) => quoted(s),
        JsonV::Array(items) => seq!['['] + spec_render_list(items) + seq![']'],
        JsonV::Object(fields) => seq!['{'] + spec_render_obj(fields) + seq!['}'],
    }
}

pub open spec fn spec_render_list(items: Seq<JsonV>) -> Seq<char>
    decreases items, 1int,
{
    if items.len() == 0 {
        Seq::empty()
    } else if items.len() == 1 {
        spec_render(items[0])
    } else {
        spec_render(items[0]) + seq![','] + spec_render_list(items.drop_first())
    }
}

pub open spec fn spec_render_obj(fields: Seq<(Seq<char>, JsonV)>) -> Seq<char>
    decreases fields, 1int,
{
    if fields.len() == 0 {
        Seq::empty()
    } else if fields.len() == 1 {
        quoted(fields[0].0) + seq![':'] + spec_render(fields[0].1)
    } else {
        quoted(fields[0].0) + seq![':'] + spec_render(fields[0].1) + seq![',']
            + spec_render_obj(fields.drop_first())
    }
}

/// Append the characters of `d` to `out`.
pub fn append_chars(out: &mut Vec<char>, d: &[char])
    ensures
        final(out)@ == old(out)@ + d@,
{
    let ghost pre = out@;
    let mut k: usize = 0;
    let n = d.len();
    while k < n
        invariant
            0 <= k <= n,
            n == d@.len(),
            out@ == pre + d@.take(k as int),
        decreases n - k,
    {
        let c = d[k];
        out.push(c);
        proof {
            assert(pre + d@.take(k as int) + seq![d@[k as int]] =~= pre + d@.take(k as int + 1));
        }
        k = k + 1;
    }
    proof {
        assert(d@.take(n as int) =~= d@);
        assert(out@ =~= pre + d@);
    }
}

fn hex_char_of(d: u32) -> (c: char)
    requires
        d < 16,
    ensures
        c == hex_char(d as int),
{
    if d == 0 { '0' }
    else if d == 1 { '1' }
    else if d == 2 { '2' }
    else if d == 3 { '3' }
    else if d == 4 { '4' }
    else if d == 5 { '5' }
    else if d == 6 { '6' }
    else if d == 7 { '7' }
    else if d == 8 { '8' }
    else if d == 9 { '9' }
    else if d == 10 { 'a' }
    else if d == 11 { 'b' }
    else if d == 12 { 'c' }
    else if d == 13 { 'd' }
    else if d == 14 { 'e' }
    else { 'f' }
}

fn esc_char_into(c: char, out: &mut Vec<char>)
    ensures
        final(out)@ == old(out)@ + esc_char(c),
{
    let ghost pre = out@;
    if c == '"' {
        out.push('\\');
        out.push('"');
        proof {
            assert(out@ =~= pre + esc_char(c));
        }
    } else if c == '\\' {
        out.push('\\');
        out.push('\\');
        proof {
            assert(out@ =~= pre + esc_char(c));
        }
    } else if c == '\u{8}' {
        out.push('\\');
        out.push('b');
        proof {
            assert(out@ =~= pre + esc_char(c));
        }
    } else if c == '\u{c}' {
        out.push('\\');
        out.push('f');
        proof {
            assert(out@ =~= pre + esc_char(c));
        }
    } else if c == '\n' {
        out.push('\\');
        out.push('n');
        proof {
            assert(out@ =~= pre + esc_char(c));
        }
    } else if c == '\r' {
        out.push('\\');
        out.push('r');
        proof {
            assert(out@ =~= pre + esc_char(c));
        }
    } else if c == '\t' {
        out.push('\\');
        out.push('t');
        proof {
            assert(out@ =~= pre + esc_char(c));
        }
    } else {
        let u = c as u32;
        if u < 32 {
            out.push('\\');
            out.push('u');
            out.push('0');
            out.push('0');
            let hi = hex_char_of(u / 16);
            let lo = hex_char_of(u % 16);
            out.push(hi);
            out.push(lo);
            proof {
                assert(out@ =~= pre + esc_char(c));
            }
        } else {
            out.push(c);
            proof {
                assert(out@ =~= pre + esc_char(c));
            }
        }
    }
}

/// Append the rendered form of the string `s` (quotes and escapes) to `out`.
fn quoted_into(s: &str, out: &mut Vec<char>)
    ensures
        final(out)@ == old(out)@ + quoted(s@),
{
    let ghost pre = out@;
    out.push('"');
    let n = s.unicode_len();
    let mut k: usize = 0;
    while k < n
        invariant
            0 <= k <= n,
            n == s@.len(),
            out@ == pre + seq!['"'] + esc_str(s@.take(k as int)),
        decreases n - k,
    {
        let c = s.get_char(k);
        esc_char_into(c, out);
        proof {
            lemma_esc_str_snoc(s@.take(k as int), s@[k as int]);
            assert(s@.take(k as int).push(s@[k as int]) =~= s@.take(k as int + 1));
        }
        k = k + 1;
    }
    out.push('"');
    proof {
        assert(s@.take(n as int) =~= s@);
        assert(out@ =~= pre + quoted(s@));
    }
}

/// Append the rendered form of `j` to `out`.
pub fn render_into(j: &Json, out: &mut Vec<char>)
    ensures
        final(out)@ == old(out)@ + spec_render(j@),
    decreases *j, 0int,
{
    let ghost pre = out@;
    proof {
        lemma_json_view(*j);
    }
    match j {
        Json::Null => {
            out.push('n');
            out.push('u');
            out.push('l');
            out.push('l');
            proof {
                assert(out@ =~= pre + spec_render(j@));
            }
        },
        Json::Bool(b) => {
            if *b {
                out.push('t');
                out.push('r');
                out.push('u');
                out.push('e');
            } else {
                out.push('f');
                out.push('a');
                out.push('l');
                out.push('s');
                out.push('e');
            }
            proof {
                assert(out@ =~= pre + spec_render(j@));
            }
        },
        Json::Int(i) => {
            let d = i64_text(*i);
            append_chars(out, d.as_slice());
        },
        Json::UInt(u) => {
            let d = u64_digits(*u);
            append_chars(out, d.as_slice());
        },
        Json::Float(t) => {
            let d = crate::text::chars_of(t.as_str());
            append_chars(out, d.as_slice());
        },
        Json::Str(s) => {
            quoted_into(s.as_str(), out);
        },
        Json::Array(v) => {
            out.push('[');
            render_list_from(v, 0, out);
            out.push(']');
            proof {
                assert(v@.skip(0) =~= v@);
                lemma_json_view_list(v@);
                assert(out@ =~= pre + spec_render(j@));
            }
        },
        Json::Object(v) => {
            out.push('{');
            render_obj_from(v, 0, out);
            out.push('}');
            proof {
                assert(v@.skip(0) =~= v@);
                lemma_json_view_obj(v@);
                assert(out@ =~= pre + spec_render(j@));
            }
        },
    }
}

fn render_list_from(v: &Vec<Json>, k: usize, out: &mut Vec<char>)
    requires
        k <= v@.len(),
    ensures
        final(out)@ == old(out)@ + spec_render_list(json_view_list(v@.skip(k as int))),
    decreases v@, v@.len() - k,
{
    let ghost pre = out@;
    let ghost rest = json_view_list(v@.skip(k as int));
    proof {
        lemma_json_view_list(v@.skip(k as int));
    }
    if k < v.len() {
        render_into(&v[k], out);
        proof {
            assert(v@.skip(k as int)[0] == v@[k as int]);
            assert(rest[0] == json_view(v@[k as int]));
        }
        if k + 1 < v.len() {
            out.push(',');
            render_list_from(v, k + 1, out);
            proof {
                assert(v@.skip(k as int).drop_first() =~= v@.skip(k as int + 1));
                lemma_json_view_list_drop(v@.skip(k as int));
                assert(rest.drop_first() == json_view_list(v@.skip(k as int + 1)));
                assert(out@ =~= pre + spec_render_list(rest));
            }
        } else {
            proof {
                assert(rest.len() == 1);
                assert(out@ =~= pre + spec_render_list(rest));
            }
        }
    } else {
        proof {
            assert(rest.len() == 0);
            assert(out@ =~= pre + spec_render_list(rest));
        }
    }
}

fn render_obj_from(v: &Vec<(String, Json)>, k: usize, out: &mut Vec<char>)
    requires
        k <= v@.len(),
    ensures
        final(out)@ == old(out)@ + spec_render_obj(json_view_obj(v@.skip(k as int))),
    decreases v@, v@.len() - k,
{
    let ghost pre = out@;
    let ghost rest = json_view_obj(v@.skip(k as int));
    proof {
        lemma_json_view_obj(v@.skip(k as int));
    }
    if k < v.len() {
        quoted_into(v[k].0.as_str(), out);
        out.push(':');
        render_into(&v[k].1, out);
        proof {
            assert(v@.skip(k as int)[0] == v@[k as int]);
            assert(rest[0] == (v@[k as int].0@, json_view(v@[k as int].1)));
        }
        if k + 1 < v.len() {
            out.push(',');
            render_obj_from(v, k + 1, out);
            proof {
                assert(v@.skip(k as int).drop_first() =~= v@.skip(k as int + 1));
                lemma_json_view_obj_drop(v@.skip(k as int));
                assert(rest.drop_first() == json_view_obj(v@.skip(k as int + 1)));
                assert(out@ =~= pre + spec_render_obj(rest));
            }
        } else {
            proof {
                assert(rest.len() == 1);
                assert(out@ =~= pre + spec_render_obj(rest));
            }
        }
    } else {
        proof {
            assert(rest.len() == 0);
            assert(out@ =~= pre + spec_render_obj(rest));
        }
    }
}

proof fn lemma_json_view_list_drop(s: Seq<Json>)
    requires
        s.len() > 0,
    ensures
        json_view_list(s).drop_first() == json_view_list(s.drop_first()),
{
    reveal(json_view_list);
    assert(json_view_list(s).drop_first() =~= json_view_list(s.drop_first()));
}

proof fn lemma_json_view_obj_drop(s: Seq<(String, Json)>)
    requires
        s.len() > 0,
    ensures
        json_view_obj(s).drop_first() == json_view_obj(s.drop_first()),
{
    reveal(json_view_obj);
    assert(json_view_obj(s).drop_first() =~= json_view_obj(s.drop_first()));
}

// ===== building objects =====

/// One optional object member: a singleton where the field is present,
/// nothing where it is omitted.
pub open spec fn member_if(present: bool, k: Seq<char>, v: JsonV) -> Seq<(Seq<char>, JsonV)> {
    if present {
        seq![(k, v)]
    } else {
        Seq::empty()
    }
}

/// Append one member to an object under construction.
pub fn push_member(out: &mut Vec<(String, Json)>, key: &str, val: Json)
    ensures
        json_view_obj(final(out)@) == json_view_obj(old(out)@).push((key@, val@)),
{
    let ghost pre = out@;
    let ghost gval = val;
    let k = String::from_str(key);
    out.push((k, val));
    proof {
        assert(out@ == pre.push((k, gval)));
        lemma_json_view_obj_push(pre, k, gval);
    }
}

/// The JSON values that a sequence of strings maps to.
pub open spec fn str_views(s: Seq<String>) -> Seq<JsonV> {
    Seq::new(s.len(), |i: int| JsonV::Str(s[i]@))
}

/// A JSON array of the given strings.
pub fn strings_to_json(v: &Vec<String>) -> (r: Json)
    ensures
        r@ == JsonV::Array(str_views(v@)),
{
    let mut out: Vec<Json> = Vec::new();
    let mut k: usize = 0;
    let n = v.len();
    while k < n
        invariant
            0 <= k <= n,
            n == v@.len(),
            out@.len() == k,
            forall|i: int| 0 <= i < k ==> json_view(#[trigger] out@[i]) == JsonV::Str(v@[i]@),
        decreases n - k,
    {
        let e = Json::Str(v[k].clone());
        proof {
            lemma_json_view(e);
        }
        out.push(e);
        k = k + 1;
    }
    proof {
        lemma_json_view_list(out@);
        assert forall|i: int| 0 <= i < out@.len() implies json_view_list(out@)[i] == str_views(
            v@,
        )[i] by {
            assert(json_view_list(out@)[i] == json_view(out@[i]));
        }
        assert(json_view_list(out@) =~= str_views(v@));
    }
    let r = Json::Array(out);
    proof {
        lemma_json_view(r);
    }
    r
}

// ===== deep copies =====

impl Clone for Json {
    /// A deep copy with the same JSON view.
    fn clone(&self) -> (r: Json)
        ensures
            r@ == self@,
    {
        clone_json(self)
    }
}

fn clone_json(j: &Json) -> (r: Json)
    ensures
        r@ == j@,
    decreases *j, 0int,
{
    let r = match j {
        Json::Null => Json::Null,
        Json::Bool(b) => Json::Bool(*b),
        Json::Int(i) => Json::Int(*i),
        Json::UInt(u) => Json::UInt(*u),
        Json::Float(t) => Json::Float(t.clone()),
        Json::Str(s) => Json::Str(s.clone()),
        Json::Array(v) => Json::Array(clone_json_list(v)),
        Json::Object(v) => Json::Object(clone_json_obj(v)),
    };
    proof {
        lemma_json_view(r);
        lemma_json_view(*j);
    }
    r
}

fn clone_json_list(v: &Vec<Json>) -> (r: Vec<Json>)
    ensures
        json_view_list(r@) == json_view_list(v@),
    decreases v@, 1int,
{
    let mut out: Vec<Json> = Vec::new();
    let mut k: usize = 0;
    let n = v.len();
    while k < n
        invariant
            0 <= k <= n,
            n == v@.len(),
            out@.len() == k,
            forall|i: int| 0 <= i < k ==> json_view(#[trigger] out@[i]) == json_view(v@[i]),
        decreases n - k,
    {
        let c = clone_json(&v[k]);
        out.push(c);
        k = k + 1;
    }
    proof {
        lemma_json_view_list(out@);
        lemma_json_view_list(v@);
        assert forall|i: int|
            0 <= i < out@.len() implies json_view_list(out@)[i] == json_view_list(v@)[i] by {
            assert(json_view_list(out@)[i] == json_view(out@[i]));
            assert(json_view_list(v@)[i] == json_view(v@[i]));
        }
        assert(json_view_list(out@) =~= json_view_list(v@));
    }
    out
}

fn clone_json_obj(v: &Vec<(String, Json)>) -> (r: Vec<(String, Json)>)
    ensures
        json_view_obj(r@) == json_view_obj(v@),
    decreases v@, 1int,
{
    let mut out: Vec<(String, Json)> = Vec::new();
    let mut k: usize = 0;
    let n = v.len();
    while k < n
        invariant
            0 <= k <= n,
            n == v@.len(),
            out@.len() == k,
            forall|i: int|
                0 <= i < k ==> (#[trigger] out@[i]).0@ == v@[i].0@ && json_view(out@[i].1)
                    == json_view(v@[i].1),
        decreases n - k,
    {
        let key = v[k].0.clone();
        let val = clone_json(&v[k].1);
        out.push((key, val));
        k = k + 1;
    }
    proof {
        lemma_json_view_obj(out@);
        lemma_json_view_obj(v@);
        assert forall|i: int|
            0 <= i < out@.len() implies json_view_obj(out@)[i] == json_view_obj(v@)[i] by {
            assert(json_view_obj(out@)[i] == (out@[i].0@, json_view(out@[i].1)));
            assert(json_view_obj(v@)[i] == (v@[i].0@, json_view(v@[i].1)));
        }
        assert(json_view_obj(out@) =~= json_view_obj(v@));
    }
    out
}

/// Relies on `String::from_iter` over characters: the resulting string
/// consists of exactly the given characters, in order.
#[verifier::external_body]
pub(crate) fn chars_to_string(v: Vec<char>) -> (r: String)
    ensures
        r@ == v@,
{
    String::from_iter(v)
}

/// The rendered text of a JSON value: compact, no added whitespace,
/// object members in encounter order.
pub fn render_json(j: &Json) -> (r: String)
    ensures
        r@ == spec_render(j@),
{
    let mut out: Vec<char> = Vec::new();
    render_into(j, &mut out);
    proof {
        assert(Seq::<char>::empty() + spec_render(j@) =~= spec_render(j@));
    }
    chars_to_string(out)
}

} // verus!
