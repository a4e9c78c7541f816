//! The scalar coercion layer.
//!
//! A scalar-coercion value stores user input as text and serializes it as a
//! JSON number, boolean or string depending on what the text parses as. The
//! text buffer is the single source of truth: equality, ordering and
//! emptiness are defined over the raw text, not over its numeric meaning.

use vstd::prelude::*;
use core::cmp::Ordering;
use crate::text::{
    int_text, dec_digits, int_text_value, is_int_text, lex_cmp, lemma_int_text_valid,
    i64_text, u64_digits, parse_i64_text, chars_of, chars_eq, lex_compare,
};
use crate::json::{Json, JsonV, json_view, lemma_json_view_list, chars_to_string};

verus! {

/// The canonical JSON rendering of the finite 64-bit float that a text
/// parses as, or nothing where the text does not parse as a finite float.
/// This names the combined behaviour of `str::parse::<f64>` and
/// `serde_json`'s decimal float rendering, which depend on the characters
/// alone.
pub uninterp spec fn float_json_text(t: Seq<char>) -> Option<Seq<char>>;

/// Whether `t` parses as a finite 64-bit float.
pub open spec fn is_float_text(t: Seq<char>) -> bool {
    float_json_text(t) is Some
}

/// Relies on `str::parse::<f64>` and on `serde_json::Number::from_f64` /
/// `Number::to_string`: the parse accepts exactly float text, `from_f64`
/// returns a number exactly for finite values, and `to_string` renders it in
/// `serde_json`'s canonical decimal form. All depend on the characters alone.
/// Every optionally-signed decimal digit string in the `i64` range parses as
/// a finite float, and a rendered float re-parses and re-renders to itself
/// (the rendering is shortest-round-trip).
#[verifier::external_body]
fn render_float_text(s: &str) -> (r: Option<String>)
    ensures
        r is Some <==> float_json_text(s@) is Some,
        r matches Some(u) ==> Some(u@) == float_json_text(s@),
        is_int_text(s@) ==> r is Some,
        r matches Some(u) ==> float_json_text(u@) == Some(u@),
{
    match s.parse() {
        Ok(f) => match serde_json::Number::from_f64(f) {
            Some(n) => Some(n.to_string()),
            None => None,
        },
        Err(_) => None,
    }
}

/// The JSON scalar that numeric-coercion text serializes to: an integer
/// where the text parses as both a float and a 64-bit integer, a float
/// where only the float parse succeeds, and the text itself otherwise.
pub open spec fn coerce_number_text(t: Seq<char>) -> JsonV {
    if is_float_text(t) && is_int_text(t) {
        JsonV::Int(int_text_value(t) as i64)
    } else if is_float_text(t) {
        JsonV::Float(float_json_text(t)->0)
    } else {
        JsonV::Str(t)
    }
}

/// The boolean value of a text, going by `bool`'s own textual form:
/// exactly `true` and `false` parse.
pub open spec fn bool_text_value(t: Seq<char>) -> Option<bool> {
    if t == seq!['t', 'r', 'u', 'e'] {
        Some(true)
    } else if t == seq!['f', 'a', 'l', 's', 'e'] {
        Some(false)
    } else {
        None
    }
}

/// The JSON scalar that boolean-coercion text serializes to: a boolean
/// where the text parses as one, the text itself otherwise. Arbitrary text
/// is always a valid string, so the choice is two-way.
pub open spec fn coerce_bool_text(t: Seq<char>) -> JsonV {
    match bool_text_value(t) {
        Some(b) => JsonV::Bool(b),
        None => JsonV::Str(t),
    }
}

/// The stored text that a JSON value deserializes to where a
/// scalar-coercion value is expected: numbers keep their decimal text,
/// strings are taken verbatim, and the legacy empty-array placeholder
/// stands for empty text. Everything else is rejected.
pub open spec fn scalar_text_of(j: JsonV) -> Option<Seq<char>> {
    match j {
        JsonV::Int(i) => Some(int_text(i as int)),
        JsonV::UInt(u) => Some(dec_digits(u as nat)),
        JsonV::Float(t) => Some(t),
        JsonV::Str(s) => Some(s),
        JsonV::Array(items) => if items.len() == 0 {
            Some(Seq::empty())
        } else {
            None
        },
        _ => None,
    }
}

/// A structured failure to read a scalar-coercion value back from JSON:
/// the value was not a number, a string, or the empty-array placeholder.
#[derive(Debug, PartialEq, Eq, Structural, Clone, Copy)]
pub enum ScalarError {
    UnsupportedShape,
}

// ===== shared executable pieces =====

fn text_is_empty(s: &String) -> (r: bool)
    ensures
        r <==> s@.len() == 0,
{
    s.as_str().is_empty()
}

fn coerce_number(s: &String) -> (r: Json)
    ensures
        r@ == coerce_number_text(s@),
        is_int_text(s@) ==> r@ == JsonV::Int(int_text_value(s@) as i64),
{
    reveal(json_view);
    let f = render_float_text(s.as_str());
    let chars = chars_of(s.as_str());
    let i = parse_i64_text(chars.as_slice());
    match (f, i) {
        (Some(_), Some(v)) => Json::Int(v),
        (Some(u), None) => Json::Float(u),
        _ => Json::Str(s.clone()),
    }
}

fn coerce_bool(s: &String) -> (r: Json)
    ensures
        r@ == coerce_bool_text(s@),
{
    reveal(json_view);
    let chars = chars_of(s.as_str());
    let mut t_lit: Vec<char> = Vec::new();
    t_lit.push('t');
    t_lit.push('r');
    t_lit.push('u');
    t_lit.push('e');
    proof {
        assert(t_lit@ =~= seq!['t', 'r', 'u', 'e']);
    }
    if chars_eq(chars.as_slice(), t_lit.as_slice()) {
        return Json::Bool(true);
    }
    let mut f_lit: Vec<char> = Vec::new();
    f_lit.push('f');
    f_lit.push('a');
    f_lit.push('l');
    f_lit.push('s');
    f_lit.push('e');
    proof {
        assert(f_lit@ =~= seq!['f', 'a', 'l', 's', 'e']);
    }
    if chars_eq(chars.as_slice(), f_lit.as_slice()) {
        return Json::Bool(false);
    }
    Json::Str(s.clone())
}

fn scalar_text_from_json(j: &Json) -> (r: Result<String, ScalarError>)
    ensures
        r matches Ok(s) ==> Some(s@) == scalar_text_of(j@),
        r is Ok <==> scalar_text_of(j@) is Some,
{
    reveal(json_view);
    match j {
        Json::Int(i) => Ok(chars_to_string(i64_text(*i))),
        Json::UInt(u) => Ok(chars_to_string(u64_digits(*u))),
        Json::Float(t) => Ok(t.clone()),
        Json::Str(s) => Ok(s.clone()),
        Json::Array(v) => {
            proof {
                lemma_json_view_list(v@);
            }
            if v.len() == 0 {
                Ok(String::new())
            } else {
                Err(ScalarError::UnsupportedShape)
            }
        },
        _ => Err(ScalarError::UnsupportedShape),
    }
}

// ===== NumberOrDateString =====

/// Text that serializes as a number where it parses as one: the scalar
/// type for values that may be a number or a date string.
#[derive(Debug)]
pub struct NumberOrDateString {
    text: String,
}

impl View for NumberOrDateString {
    type V = Seq<char>;

    closed spec fn view(&self) -> Seq<char> {
        self.text@
    }
}

impl NumberOrDateString {
    /// Capture the given text verbatim.
    pub fn from_text(s: &str) -> (r: Self)
        ensures
            r@ == s@,
    {
        NumberOrDateString { text: String::from_str(s) }
    }

    /// Capture the given text verbatim, taking ownership.
    pub fn from_string(s: String) -> (r: Self)
        ensures
            r@ == s@,
    {
        NumberOrDateString { text: s }
    }

    /// The decimal text of the given integer.
    pub fn from_int(i: i64) -> (r: Self)
        ensures
            r@ == int_text(i as int),
    {
        NumberOrDateString { text: chars_to_string(i64_text(i)) }
    }

    /// Whether the stored text is empty; empty values are omitted from
    /// serialized output.
    pub fn is_empty(&self) -> (r: bool)
        ensures
            r <==> self@.len() == 0,
    {
        text_is_empty(&self.text)
    }

    /// The stored text.
    pub fn to_string(&self) -> (r: String)
        ensures
            r@ == self@,
    {
        self.text.clone()
    }

    /// Serialize: an integer where the text parses as both a float and a
    /// 64-bit integer, a float where only the float parse succeeds, the
    /// text itself otherwise.
    pub fn to_json(&self) -> (r: Json)
        ensures
            r@ == coerce_number_text(self@),
            is_int_text(self@) ==> r@ == JsonV::Int(int_text_value(self@) as i64),
    {
        coerce_number(&self.text)
    }

    /// Deserialize from a JSON number, string, or the legacy empty-array
    /// placeholder; anything else is a structured failure.
    pub fn from_json(j: &Json) -> (r: Result<Self, ScalarError>)
        ensures
            r matches Ok(v) ==> Some(v@) == scalar_text_of(j@),
            r is Ok <==> scalar_text_of(j@) is Some,
    {
        match scalar_text_from_json(j) {
            Ok(s) => Ok(NumberOrDateString { text: s }),
            Err(e) => Err(e),
        }
    }

    /// Total order over the raw text, independent of numeric meaning.
    pub fn compare(&self, other: &Self) -> (r: Ordering)
        ensures
            r == lex_cmp(self@, other@),
    {
        let a = chars_of(self.text.as_str());
        let b = chars_of(other.text.as_str());
        lex_compare(a.as_slice(), b.as_slice())
    }
}

impl PartialEq for NumberOrDateString {
    fn eq(&self, other: &Self) -> bool {
        let a = chars_of(self.text.as_str());
        let b = chars_of(other.text.as_str());
        chars_eq(a.as_slice(), b.as_slice())
    }
}

impl vstd::std_specs::cmp::PartialEqSpecImpl for NumberOrDateString {
    open spec fn obeys_eq_spec() -> bool {
        true
    }

    open spec fn eq_spec(&self, other: &Self) -> bool {
        self@ == other@
    }
}

impl Clone for NumberOrDateString {
    fn clone(&self) -> (r: Self)
        ensures
            r@ == self@,
    {
        NumberOrDateString { text: self.text.clone() }
    }
}

impl Default for NumberOrDateString {
    fn default() -> (r: Self)
        ensures
            r@ == Seq::<char>::empty(),
    {
        NumberOrDateString { text: String::new() }
    }
}

impl From<NumberString> for NumberOrDateString {
    fn from(value: NumberString) -> (r: Self) {
        NumberOrDateString { text: value.text }
    }
}

impl vstd::std_specs::convert::FromSpecImpl<NumberString> for NumberOrDateString {
    open spec fn obeys_from_spec() -> bool {
        true
    }

    closed spec fn from_spec(value: NumberString) -> Self {
        NumberOrDateString { text: value.text }
    }
}

// ===== NumberString =====

/// Text that serializes as a number where it parses as one: the scalar
/// type for plainly numeric values.
#[derive(Debug)]
pub struct NumberString {
    text: String,
}

impl View for NumberString {
    type V = Seq<char>;

    closed spec fn view(&self) -> Seq<char> {
        self.text@
    }
}

impl NumberString {
    /// Capture the given text verbatim.
    pub fn from_text(s: &str) -> (r: Self)
        ensures
            r@ == s@,
    {
        NumberString { text: String::from_str(s) }
    }

    /// Capture the given text verbatim, taking ownership.
    pub fn from_string(s: String) -> (r: Self)
        ensures
            r@ == s@,
    {
        NumberString { text: s }
    }

    /// The decimal text of the given integer.
    pub fn from_int(i: i64) -> (r: Self)
        ensures
            r@ == int_text(i as int),
    {
        NumberString { text: chars_to_string(i64_text(i)) }
    }

    /// Whether the stored text is empty; empty values are omitted from
    /// serialized output.
    pub fn is_empty(&self) -> (r: bool)
        ensures
            r <==> self@.len() == 0,
    {
        text_is_empty(&self.text)
    }

    /// The stored text.
    pub fn to_string(&self) -> (r: String)
        ensures
            r@ == self@,
    {
        self.text.clone()
    }

    /// Serialize: an integer where the text parses as both a float and a
    /// 64-bit integer, a float where only the float parse succeeds, the
    /// text itself otherwise.
    pub fn to_json(&self) -> (r: Json)
        ensures
            r@ == coerce_number_text(self@),
            is_int_text(self@) ==> r@ == JsonV::Int(int_text_value(self@) as i64),
    {
        coerce_number(&self.text)
    }

    /// Deserialize from a JSON number, string, or the legacy empty-array
    /// placeholder; anything else is a structured failure.
    pub fn from_json(j: &Json) -> (r: Result<Self, ScalarError>)
        ensures
            r matches Ok(v) ==> Some(v@) == scalar_text_of(j@),
            r is Ok <==> scalar_text_of(j@) is Some,
    {
        match scalar_text_from_json(j) {
            Ok(s) => Ok(NumberString { text: s }),
            Err(e) => Err(e),
        }
    }

    /// Total order over the raw text, independent of numeric meaning.
    pub fn compare(&self, other: &Self) -> (r: Ordering)
        ensures
            r == lex_cmp(self@, other@),
    {
        let a = chars_of(self.text.as_str());
        let b = chars_of(other.text.as_str());
        lex_compare(a.as_slice(), b.as_slice())
    }
}

impl PartialEq for NumberString {
    fn eq(&self, other: &Self) -> bool {
        let a = chars_of(self.text.as_str());
        let b = chars_of(other.text.as_str());
        chars_eq(a.as_slice(), b.as_slice())
    }
}

impl vstd::std_specs::cmp::PartialEqSpecImpl for NumberString {
    open spec fn obeys_eq_spec() -> bool {
        true
    }

    open spec fn eq_spec(&self, other: &Self) -> bool {
        self@ == other@
    }
}

impl Clone for NumberString {
    fn clone(&self) -> (r: Self)
        ensures
            r@ == self@,
    {
        NumberString { text: self.text.clone() }
    }
}

impl Default for NumberString {
    fn default() -> (r: Self)
        ensures
            r@ == Seq::<char>::empty(),
    {
        NumberString { text: String::new() }
    }
}

impl From<NumberOrDateString> for NumberString {
    fn from(value: NumberOrDateString) -> (r: Self) {
        NumberString { text: value.text }
    }
}

impl vstd::std_specs::convert::FromSpecImpl<NumberOrDateString> for NumberString {
    open spec fn obeys_from_spec() -> bool {
        true
    }

    closed spec fn from_spec(value: NumberOrDateString) -> Self {
        NumberString { text: value.text }
    }
}

// ===== BoolString =====

/// Text that serializes as a boolean where it parses as one.
#[derive(Debug)]
pub struct BoolString {
    text: String,
}

impl View for BoolString {
    type V = Seq<char>;

    closed spec fn view(&self) -> Seq<char> {
        self.text@
    }
}

impl BoolString {
    /// Capture the given text verbatim.
    pub fn from_text(s: &str) -> (r: Self)
        ensures
            r@ == s@,
    {
        BoolString { text: String::from_str(s) }
    }

    /// Capture the given text verbatim, taking ownership.
    pub fn from_string(s: String) -> (r: Self)
        ensures
            r@ == s@,
    {
        BoolString { text: s }
    }

    /// The textual form of the given boolean.
    pub fn from_bool(b: bool) -> (r: Self)
        ensures
            r@ == (if b {
                seq!['t', 'r', 'u', 'e']
            } else {
                seq!['f', 'a', 'l', 's', 'e']
            }),
            bool_text_value(r@) == Some(b),
    {
        proof {
            reveal_strlit("true");
            reveal_strlit("false");
            assert("true"@ =~= seq!['t', 'r', 'u', 'e']);
            assert("false"@ =~= seq!['f', 'a', 'l', 's', 'e']);
        }
        if b {
            BoolString { text: String::from_str("true") }
        } else {
            BoolString { text: String::from_str("false") }
        }
    }

    /// Whether the stored text is empty; empty values are omitted from
    /// serialized output.
    pub fn is_empty(&self) -> (r: bool)
        ensures
            r <==> self@.len() == 0,
    {
        text_is_empty(&self.text)
    }

    /// The stored text.
    pub fn to_string(&self) -> (r: String)
        ensures
            r@ == self@,
    {
        self.text.clone()
    }

    /// Serialize: a boolean where the text parses as one, the text itself
    /// otherwise.
    pub fn to_json(&self) -> (r: Json)
        ensures
            r@ == coerce_bool_text(self@),
    {
        coerce_bool(&self.text)
    }

    /// Deserialize from a JSON number, string, or the legacy empty-array
    /// placeholder; anything else is a structured failure.
    pub fn from_json(j: &Json) -> (r: Result<Self, ScalarError>)
        ensures
            r matches Ok(v) ==> Some(v@) == scalar_text_of(j@),
            r is Ok <==> scalar_text_of(j@) is Some,
    {
        match scalar_text_from_json(j) {
            Ok(s) => Ok(BoolString { text: s }),
            Err(e) => Err(e),
        }
    }

    /// Total order over the raw text, independent of boolean meaning.
    pub fn compare(&self, other: &Self) -> (r: Ordering)
        ensures
            r == lex_cmp(self@, other@),
    {
        let a = chars_of(self.text.as_str());
        let b = chars_of(other.text.as_str());
        lex_compare(a.as_slice(), b.as_slice())
    }
}

impl PartialEq for BoolString {
    fn eq(&self, other: &Self) -> bool {
        let a = chars_of(self.text.as_str());
        let b = chars_of(other.text.as_str());
        chars_eq(a.as_slice(), b.as_slice())
    }
}

impl vstd::std_specs::cmp::PartialEqSpecImpl for BoolString {
    open spec fn obeys_eq_spec() -> bool {
        true
    }

    open spec fn eq_spec(&self, other: &Self) -> bool {
        self@ == other@
    }
}

impl Clone for BoolString {
    fn clone(&self) -> (r: Self)
        ensures
            r@ == self@,
    {
        BoolString { text: self.text.clone() }
    }
}

impl Default for BoolString {
    fn default() -> (r: Self)
        ensures
            r@ == Seq::<char>::empty(),
    {
        BoolString { text: String::new() }
    }
}

// ===== arrays of scalar-coercion values =====

/// The JSON values that a sequence of numeric scalars serializes to.
pub open spec fn number_views(s: Seq<NumberString>) -> Seq<JsonV> {
    Seq::new(s.len(), |i: int| coerce_number_text(s[i]@))
}

/// A JSON array of the given numeric scalars, each coerced on its own.
pub fn numbers_to_json(v: &Vec<NumberString>) -> (r: Json)
    ensures
        r@ == JsonV::Array(number_views(v@)),
{
    let mut out: Vec<Json> = Vec::new();
    let mut k: usize = 0;
    let n = v.len();
    while k < n
        invariant
            0 <= k <= n,
            n == v@.len(),
            out@.len() == k,
            forall|i: int|
                0 <= i < k ==> json_view(#[trigger] out@[i]) == coerce_number_text(v@[i]@),
        decreases n - k,
    {
        let j = v[k].to_json();
        out.push(j);
        k = k + 1;
    }
    proof {
        lemma_json_view_list(out@);
        assert forall|i: int|
            0 <= i < out@.len() implies crate::json::json_view_list(out@)[i] == number_views(
            v@,
        )[i] by {
            assert(crate::json::json_view_list(out@)[i] == json_view(out@[i]));
        }
        assert(crate::json::json_view_list(out@) =~= number_views(v@));
    }
    reveal(json_view);
    Json::Array(out)
}

/// The JSON values that a sequence of number-or-date scalars serializes to.
pub open spec fn nod_views(s: Seq<NumberOrDateString>) -> Seq<JsonV> {
    Seq::new(s.len(), |i: int| coerce_number_text(s[i]@))
}

/// A JSON array of the given number-or-date scalars, each coerced on its
/// own.
pub fn nods_to_json(v: &Vec<NumberOrDateString>) -> (r: Json)
    ensures
        r@ == JsonV::Array(nod_views(v@)),
{
    let mut out: Vec<Json> = Vec::new();
    let mut k: usize = 0;
    let n = v.len();
    while k < n
        invariant
            0 <= k <= n,
            n == v@.len(),
            out@.len() == k,
            forall|i: int|
                0 <= i < k ==> json_view(#[trigger] out@[i]) == coerce_number_text(v@[i]@),
        decreases n - k,
    {
        let j = v[k].to_json();
        out.push(j);
        k = k + 1;
    }
    proof {
        lemma_json_view_list(out@);
        assert forall|i: int|
            0 <= i < out@.len() implies crate::json::json_view_list(out@)[i] == nod_views(
            v@,
        )[i] by {
            assert(crate::json::json_view_list(out@)[i] == json_view(out@[i]));
        }
        assert(crate::json::json_view_list(out@) =~= nod_views(v@));
    }
    reveal(json_view);
    Json::Array(out)
}

// ===== round-trip laws =====

/// Deserializing a JSON integer where a scalar-coercion value is expected
/// and serializing the value again yields the same integer, for every
/// 64-bit integer.
pub fn reserialize_int(n: i64) -> (r: Json)
    ensures
        r@ == JsonV::Int(n),
{
    reveal(json_view);
    let v = NumberString::from_json(&Json::Int(n)).unwrap();
    proof {
        lemma_int_text_valid(n as int);
    }
    v.to_json()
}

/// Deserializing a canonically rendered JSON float and serializing the
/// value again yields a numerically equal JSON number: the same float
/// text, or the integer form where the text also parses as an integer.
pub fn reserialize_float_text(t: String) -> (r: Json)
    ensures
        float_json_text(t@) == Some(t@) ==> (r@ == JsonV::Float(t@) || r@ == JsonV::Int(
            int_text_value(t@) as i64,
        )),
{
    reveal(json_view);
    let v = NumberString::from_json(&Json::Float(t)).unwrap();
    v.to_json()
}

/// Deserializing a JSON string that is not numeric and serializing the
/// value again yields exactly the same string.
pub fn reserialize_plain_text(s: String) -> (r: Json)
    ensures
        !is_float_text(s@) ==> r@ == JsonV::Str(s@),
{
    reveal(json_view);
    let v = NumberString::from_json(&Json::Str(s)).unwrap();
    v.to_json()
}

} // verus!
