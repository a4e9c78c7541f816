//! Raw text utilities: decimal digits, the textual form of 64-bit integers,
//! and lexicographic comparison of character sequences.

use vstd::prelude::*;
use core::cmp::Ordering;

verus! {

// ===== decimal digits =====

pub open spec fn is_digit_char(c: char) -> bool {
    48 <= c as u32 <= 57
}

pub open spec fn digit_val(c: char) -> int {
    c as u32 - 48
}

pub open spec fn all_digits(s: Seq<char>) -> bool {
    forall|i: int| 0 <= i < s.len() ==> is_digit_char(#[trigger] s[i])
}

/// The value of a non-empty digit string, most significant digit first.
pub open spec fn digits_value(s: Seq<char>) -> int
    decreases s.len(),
{
    if s.len() == 0 {
        0
    } else {
        digits_value(s.drop_last()) * 10 + digit_val(s.last())
    }
}

/// The decimal digit character for `d` (digits 0 through 9).
pub open spec fn digit_char(d: int) -> char {
    if d == 0 { '0' }
    else if d == 1 { '1' }
    else if d == 2 { '2' }
    else if d == 3 { '3' }
    else if d == 4 { '4' }
    else if d == 5 { '5' }
    else if d == 6 { '6' }
    else if d == 7 { '7' }
    else if d == 8 { '8' }
    else { '9' }
}

/// The decimal rendering of a natural number, without sign or padding.
pub open spec fn dec_digits(n: nat) -> Seq<char>
    decreases n,
{
    if n < 10 {
        seq![digit_char(n as int)]
    } else {
        dec_digits(n / 10).push(digit_char((n % 10) as int))
    }
}

/// The decimal rendering of an integer: a minus sign for negatives,
/// then the digits of the magnitude.
pub open spec fn int_text(i: int) -> Seq<char> {
    if i < 0 {
        seq!['-'] + dec_digits((-i) as nat)
    } else {
        dec_digits(i as nat)
    }
}

// ===== the textual form of 64-bit integers =====

/// The digit portion of an integer text: everything after a leading sign.
pub open spec fn int_body(t: Seq<char>) -> Seq<char> {
    if t.len() > 0 && (t[0] == '+' || t[0] == '-') {
        t.drop_first()
    } else {
        t
    }
}

pub open spec fn int_sign(t: Seq<char>) -> int {
    if t.len() > 0 && t[0] == '-' {
        -1
    } else {
        1
    }
}

pub open spec fn int_text_value(t: Seq<char>) -> int {
    int_sign(t) * digits_value(int_body(t))
}

/// Whether `t` is the text of a 64-bit signed integer: an optional sign,
/// one or more decimal digits, and a value within the `i64` range.
pub open spec fn is_int_text(t: Seq<char>) -> bool {
    &&& int_body(t).len() > 0
    &&& all_digits(int_body(t))
    &&& i64::MIN <= int_text_value(t) <= i64::MAX
}

// ===== lemmas about digit values =====

pub proof fn lemma_digits_value_nonneg(s: Seq<char>)
    requires
        all_digits(s),
    ensures
        digits_value(s) >= 0,
    decreases s.len(),
{
    if s.len() > 0 {
        assert(all_digits(s.drop_last()));
        lemma_digits_value_nonneg(s.drop_last());
    }
}

pub proof fn lemma_digits_value_take_succ(s: Seq<char>, i: int)
    requires
        0 <= i < s.len(),
    ensures
        digits_value(s.take(i + 1)) == digits_value(s.take(i)) * 10 + digit_val(s[i]),
{
    assert(s.take(i + 1).drop_last() =~= s.take(i));
    assert(s.take(i + 1).last() == s[i]);
}

/// The value of a digit-string prefix never exceeds the value of the whole.
pub proof fn lemma_digits_value_take_le(s: Seq<char>, i: int)
    requires
        all_digits(s),
        0 <= i <= s.len(),
    ensures
        digits_value(s.take(i)) <= digits_value(s),
    decreases s.len() - i,
{
    if i < s.len() {
        lemma_digits_value_take_succ(s, i);
        assert(all_digits(s.take(i)));
        lemma_digits_value_nonneg(s.take(i));
        lemma_digits_value_take_le(s, i + 1);
    } else {
        assert(s.take(i) =~= s);
    }
}

// ===== rendering integers =====

proof fn lemma_digit_char_val(d: int)
    requires
        0 <= d < 10,
    ensures
        is_digit_char(digit_char(d)),
        digit_val(digit_char(d)) == d,
{
    if d == 0 {
        assert(digit_char(d) == '0' && '0' as u32 == 48);
    } else if d == 1 {
        assert(digit_char(d) == '1' && '1' as u32 == 49);
    } else if d == 2 {
        assert(digit_char(d) == '2' && '2' as u32 == 50);
    } else if d == 3 {
        assert(digit_char(d) == '3' && '3' as u32 == 51);
    } else if d == 4 {
        assert(digit_char(d) == '4' && '4' as u32 == 52);
    } else if d == 5 {
        assert(digit_char(d) == '5' && '5' as u32 == 53);
    } else if d == 6 {
        assert(digit_char(d) == '6' && '6' as u32 == 54);
    } else if d == 7 {
        assert(digit_char(d) == '7' && '7' as u32 == 55);
    } else if d == 8 {
        assert(digit_char(d) == '8' && '8' as u32 == 56);
    } else {
        assert(digit_char(d) == '9' && '9' as u32 == 57);
    }
}

proof fn lemma_dec_digits_all(n: nat)
    ensures
        all_digits(dec_digits(n)),
        dec_digits(n).len() > 0,
        digits_value(dec_digits(n)) == n,
    decreases n,
{
    if n < 10 {
        lemma_digit_char_val(n as int);
        let t = seq![digit_char(n as int)];
        assert(dec_digits(n) == t);
        assert(digits_value(Seq::<char>::empty()) == 0);
        assert(t.drop_last() =~= Seq::<char>::empty());
        assert(digits_value(t) == digit_val(digit_char(n as int)));
        assert(forall|i: int| 0 <= i < t.len() ==> is_digit_char(#[trigger] t[i]));
    } else {
        lemma_dec_digits_all(n / 10);
        lemma_digit_char_val((n % 10) as int);
        let p = dec_digits(n / 10);
        let c = digit_char((n % 10) as int);
        assert(p.push(c).drop_last() =~= p);
        assert(p.push(c).last() == c);
        assert(digits_value(p.push(c)) == digits_value(p) * 10 + digit_val(c));
        assert(digits_value(p) * 10 + digit_val(c) == n) by {
            assert(digits_value(p) == n / 10);
            assert(digit_val(c) == n % 10);
        }
        assert(forall|i: int| 0 <= i < p.push(c).len() ==> is_digit_char(#[trigger] p.push(c)[i]));
    }
}

/// The decimal text of an integer in the `i64` range parses back to it.
pub proof fn lemma_int_text_valid(i: int)
    requires
        i64::MIN <= i <= i64::MAX,
    ensures
        is_int_text(int_text(i)),
        int_text_value(int_text(i)) == i,
{
    if i < 0 {
        lemma_dec_digits_all((-i) as nat);
        let t = seq!['-'] + dec_digits((-i) as nat);
        assert(t[0] == '-');
        assert(t.drop_first() =~= dec_digits((-i) as nat));
    } else {
        lemma_dec_digits_all(i as nat);
        let t = dec_digits(i as nat);
        assert(is_digit_char(t[0]));
        assert(t[0] != '+' && t[0] != '-');
        assert(int_body(t) =~= t);
    }
}

fn digit_char_of(d: u64) -> (c: char)
    requires
        d < 10,
    ensures
        c == digit_char(d as int),
        is_digit_char(c),
{
    if d == 0 { '0' }
    else if d == 1 { '1' }
    else if d == 2 { '2' }
    else if d == 3 { '3' }
    else if d == 4 { '4' }
    else if d == 5 { '5' }
    else if d == 6 { '6' }
    else if d == 7 { '7' }
    else if d == 8 { '8' }
    else { '9' }
}

/// The decimal digits of `n`, most significant first.
pub fn u64_digits(n: u64) -> (v: Vec<char>)
    ensures
        v@ == dec_digits(n as nat),
    decreases n,
{
    if n < 10 {
        let c = digit_char_of(n);
        let v = vec![c];
        proof {
            assert(v@ =~= dec_digits(n as nat));
        }
        v
    } else {
        let mut v = u64_digits(n / 10);
        let c = digit_char_of(n % 10);
        v.push(c);
        v
    }
}

/// The decimal text of a signed 64-bit integer.
pub fn i64_text(i: i64) -> (v: Vec<char>)
    ensures
        v@ == int_text(i as int),
{
    if i >= 0 {
        u64_digits(i as u64)
    } else {
        let m: u64 = (-(i as i128)) as u64;
        let mut v: Vec<char> = vec!['-'];
        let mut d = u64_digits(m);
        let ghost pre = v@;
        let mut k: usize = 0;
        while k < d.len()
            invariant
                0 <= k <= d.len(),
                d@ == dec_digits(m as nat),
                v@ == pre + d@.take(k as int),
            decreases d.len() - k,
        {
            let c = d[k];
            v.push(c);
            proof {
                assert(pre + d@.take(k as int) + seq![d@[k as int]] =~= pre + d@.take(
                    k as int + 1,
                ));
            }
            k = k + 1;
        }
        proof {
            assert(d@.take(d@.len() as int) =~= d@);
            assert(v@ =~= int_text(i as int));
        }
        v
    }
}

// ===== parsing 64-bit integer text =====

fn char_digit(c: char) -> (r: Option<u64>)
    ensures
        r is Some <==> is_digit_char(c),
        r matches Some(d) ==> d == digit_val(c) && d < 10,
{
    let u = c as u32;
    if 48 <= u && u <= 57 {
        Some((u - 48) as u64)
    } else {
        None
    }
}

/// Parse the text of a 64-bit signed integer: an optional `+` or `-` sign
/// followed by one or more decimal digits, rejecting values outside the
/// `i64` range.
pub fn parse_i64_text(s: &[char]) -> (r: Option<i64>)
    ensures
        r is Some <==> is_int_text(s@),
        r matches Some(v) ==> v as int == int_text_value(s@),
{
    let n = s.len();
    if n == 0 {
        return None;
    }
    let first = s[0];
    let neg = first == '-';
    let start: usize = if first == '-' || first == '+' {
        1
    } else {
        0
    };
    let ghost body = int_body(s@);
    proof {
        assert(body =~= s@.skip(start as int));
    }
    if start == n {
        return None;
    }
    let limit: u64 = if neg {
        9223372036854775808
    } else {
        9223372036854775807
    };
    let mut acc: u64 = 0;
    let mut k: usize = start;
    while k < n
        invariant
            start <= k <= n,
            n == s@.len(),
            start == if s@[0] == '-' || s@[0] == '+' { 1int } else { 0int },
            start < n,
            neg == (s@[0] == '-'),
            limit == if neg { 9223372036854775808u64 } else { 9223372036854775807u64 },
            body == int_body(s@),
            body =~= s@.skip(start as int),
            all_digits(body.take(k - start)),
            acc == digits_value(body.take(k - start)),
            acc <= limit,
        decreases n - k,
    {
        let c = s[k];
        proof {
            assert(body[k - start] == s@[k as int]);
        }
        match char_digit(c) {
            None => {
                proof {
                    assert(!is_digit_char(body[k - start]));
                }
                return None;
            },
            Some(d) => {
                let next: u128 = acc as u128 * 10 + d as u128;
                proof {
                    lemma_digits_value_take_succ(body, k - start);
                }
                if next > limit as u128 {
                    proof {
                        assert(digits_value(body.take(k - start + 1)) > limit);
                        if is_int_text(s@) {
                            lemma_digits_value_take_le(body, k - start + 1);
                            assert(digits_value(body) > limit);
                            if neg {
                                assert(int_text_value(s@) == -digits_value(body));
                                assert(int_text_value(s@) < i64::MIN);
                            } else {
                                assert(int_text_value(s@) == digits_value(body));
                                assert(int_text_value(s@) > i64::MAX);
                            }
                        }
                    }
                    return None;
                }
                acc = next as u64;
                proof {
                    assert(body.take(k - start + 1).drop_last() =~= body.take(k - start));
                }
                k = k + 1;
            },
        }
    }
    proof {
        assert(body.take(n - start) =~= body);
        assert(all_digits(body));
        assert(digits_value(body) == acc);
    }
    if neg {
        let v: i64 = (-(acc as i128)) as i64;
        proof {
            assert(int_text_value(s@) == -(acc as int));
        }
        Some(v)
    } else {
        let v: i64 = acc as i64;
        Some(v)
    }
}

// ===== lexicographic comparison =====

/// Lexicographic comparison of two character sequences by scalar value.
pub open spec fn lex_cmp(a: Seq<char>, b: Seq<char>) -> Ordering
    decreases a.len(),
{
    if a.len() == 0 && b.len() == 0 {
        Ordering::Equal
    } else if a.len() == 0 {
        Ordering::Less
    } else if b.len() == 0 {
        Ordering::Greater
    } else if (a[0] as u32) < (b[0] as u32) {
        Ordering::Less
    } else if (a[0] as u32) > (b[0] as u32) {
        Ordering::Greater
    } else {
        lex_cmp(a.drop_first(), b.drop_first())
    }
}

pub proof fn lemma_lex_cmp_eq(a: Seq<char>, b: Seq<char>)
    ensures
        lex_cmp(a, b) == Ordering::Equal <==> a == b,
    decreases a.len(),
{
    if a.len() == 0 && b.len() == 0 {
        assert(a =~= b);
    } else if a.len() == 0 || b.len() == 0 {
    } else if a[0] as u32 == b[0] as u32 {
        vstd::utf8::char_u32_cast(a[0], a[0] as u32);
        vstd::utf8::char_u32_cast(b[0], b[0] as u32);
        assert(a[0] == b[0]);
        lemma_lex_cmp_eq(a.drop_first(), b.drop_first());
        if a.drop_first() == b.drop_first() {
            assert(a =~= seq![a[0]] + a.drop_first());
            assert(b =~= seq![b[0]] + b.drop_first());
        } else {
            if a == b {
                assert(a.drop_first() =~= b.drop_first());
            }
        }
    } else {
        if a == b {
            assert(a[0] == b[0]);
        }
    }
}

/// Compare two character sequences lexicographically by scalar value.
pub fn lex_compare(a: &[char], b: &[char]) -> (r: Ordering)
    ensures
        r == lex_cmp(a@, b@),
{
    let mut k: usize = 0;
    let an = a.len();
    let bn = b.len();
    proof {
        assert(a@.skip(0) =~= a@);
        assert(b@.skip(0) =~= b@);
    }
    while k < an && k < bn
        invariant
            0 <= k <= an,
            0 <= k <= bn,
            an == a@.len(),
            bn == b@.len(),
            lex_cmp(a@, b@) == lex_cmp(a@.skip(k as int), b@.skip(k as int)),
        decreases an - k,
    {
        let x = a[k] as u32;
        let y = b[k] as u32;
        if x < y {
            return Ordering::Less;
        }
        if x > y {
            return Ordering::Greater;
        }
        proof {
            assert(a@.skip(k as int).drop_first() =~= a@.skip(k as int + 1));
            assert(b@.skip(k as int).drop_first() =~= b@.skip(k as int + 1));
        }
        k = k + 1;
    }
    proof {
        if an == bn {
            assert(a@.skip(k as int).len() == 0 && b@.skip(k as int).len() == 0);
        }
    }
    if an == bn {
        Ordering::Equal
    } else if an < bn {
        Ordering::Less
    } else {
        Ordering::Greater
    }
}

/// Whether two character sequences are equal.
pub fn chars_eq(a: &[char], b: &[char]) -> (r: bool)
    ensures
        r <==> a@ == b@,
{
    let c = lex_compare(a, b);
    proof {
        lemma_lex_cmp_eq(a@, b@);
    }
    matches!(c, Ordering::Equal)
}

/// The characters of a string slice, in order.
pub fn chars_of(s: &str) -> (v: Vec<char>)
    ensures
        v@ == s@,
{
    let n = s.unicode_len();
    let mut v: Vec<char> = Vec::new();
    let mut k: usize = 0;
    while k < n
        invariant
            0 <= k <= n,
            n == s@.len(),
            v@ == s@.take(k as int),
        decreases n - k,
    {
        let c = s.get_char(k);
        v.push(c);
        proof {
            assert(s@.take(k as int).push(s@[k as int]) =~= s@.take(k as int + 1));
        }
        k = k + 1;
    }
    proof {
        assert(s@.take(n as int) =~= s@);
    }
    v
}

} // verus!
