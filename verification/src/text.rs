//! Small verified building blocks for working with text: character
//! classification, string equality, comment stripping, whitespace trimming,
//! separator splitting and decimal integer parsing.
//!
//! Each executable function is specified against a spec-level function on
//! `Seq<char>`, so the higher layers (record parser, loader, resolver) can
//! state their contracts purely over sequences of characters.

use vstd::prelude::*;

verus! {

/// An ASCII whitespace character: space, tab, line feed, form feed or
/// carriage return.
pub open spec fn is_ws(c: char) -> bool {
    c == ' ' || c == '\t' || c == '\n' || c == '\u{c}' || c == '\r'
}

/// The prefix of `s` before the first `'#'`; all of `s` when `s` has none.
pub open spec fn strip_comment(s: Seq<char>) -> Seq<char>
    decreases s.len(),
{
    if s.len() == 0 {
        s
    } else if s[0] == '#' {
        Seq::empty()
    } else {
        seq![s[0]] + strip_comment(s.drop_first())
    }
}

/// `s` without its leading ASCII whitespace.
pub open spec fn ltrim(s: Seq<char>) -> Seq<char>
    decreases s.len(),
{
    if s.len() > 0 && is_ws(s[0]) {
        ltrim(s.drop_first())
    } else {
        s
    }
}

/// `s` without its trailing ASCII whitespace.
pub open spec fn rtrim(s: Seq<char>) -> Seq<char>
    decreases s.len(),
{
    if s.len() > 0 && is_ws(s.last()) {
        rtrim(s.drop_last())
    } else {
        s
    }
}

/// `s` without leading and trailing ASCII whitespace.
pub open spec fn trim(s: Seq<char>) -> Seq<char> {
    rtrim(ltrim(s))
}

/// A raw line made ready for field splitting: the trailing comment removed,
/// surrounding ASCII whitespace trimmed.  A line whose sanitized form is
/// empty carries no record and is skipped.
pub open spec fn sanitize(s: Seq<char>) -> Seq<char> {
    trim(strip_comment(s))
}

/// The fields of `s`, split on the separator `sep`.  Splitting always yields
/// at least one field; a separator at either end yields an empty field there.
pub open spec fn split_on(s: Seq<char>, sep: char) -> Seq<Seq<char>>
    decreases s.len(),
{
    if s.len() == 0 {
        seq![Seq::empty()]
    } else {
        let rest = split_on(s.drop_last(), sep);
        if s.last() == sep {
            rest.push(Seq::empty())
        } else {
            rest.update(rest.len() - 1, rest.last().push(s.last()))
        }
    }
}

/// A decimal digit.
pub open spec fn is_digit(c: char) -> bool {
    48 <= c as u32 && c as u32 <= 57
}

/// The numeric value of a decimal digit.
pub open spec fn digit_val(c: char) -> int {
    c as u32 - 48
}

pub open spec fn all_digits(s: Seq<char>) -> bool {
    forall|i: int| 0 <= i < s.len() ==> is_digit(#[trigger] s[i])
}

/// The value of a non-empty sequence of decimal digits, most significant
/// first.
pub open spec fn digits_val(s: Seq<char>) -> int
    decreases s.len(),
{
    if s.len() == 0 {
        0
    } else {
        digits_val(s.drop_last()) * 10 + digit_val(s.last())
    }
}

/// Whether `s` is the decimal text of a 64-bit signed integer: an optional
/// leading `'-'`, then one or more digits, with the value in range.
pub open spec fn is_i64_text(s: Seq<char>) -> bool {
    if s.len() > 0 && s[0] == '-' {
        let mag = s.drop_first();
        mag.len() > 0 && all_digits(mag) && digits_val(mag) <= 0x8000000000000000
    } else {
        s.len() > 0 && all_digits(s) && digits_val(s) <= 0x7fffffffffffffff
    }
}

/// The value denoted by a well-formed decimal text.
pub open spec fn i64_text_val(s: Seq<char>) -> int {
    if s.len() > 0 && s[0] == '-' {
        -digits_val(s.drop_first())
    } else {
        digits_val(s)
    }
}

/// Executable string equality, specified over the character views.
pub fn str_eq(a: &str, b: &str) -> (r: bool)
    ensures
        r == (a@ == b@),
{
    let n = a.unicode_len();
    let m = b.unicode_len();
    if n != m {
        assert(a@ != b@) by {
            assert(a@.len() != b@.len());
        }
        return false;
    }
    let mut i: usize = 0;
    while i < n
        invariant
            n == a@.len(),
            n == b@.len(),
            i <= n,
            forall|j: int| 0 <= j < i ==> a@[j] == b@[j],
        decreases n - i,
    {
        if a.get_char(i) != b.get_char(i) {
            return false;
        }
        i = i + 1;
    }
    assert(a@ =~= b@);
    true
}

/// A scan that stops at the first `'#'` (or the end) has found exactly the
/// prefix that `strip_comment` keeps.
proof fn lemma_strip_comment_at(s: Seq<char>, i: int)
    requires
        0 <= i <= s.len(),
        forall|j: int| 0 <= j < i ==> s[j] != '#',
        i == s.len() || s[i] == '#',
    ensures
        strip_comment(s) == s.take(i),
    decreases i,
{
    if i == 0 {
        assert(strip_comment(s) =~= s.take(0));
    } else {
        lemma_strip_comment_at(s.drop_first(), i - 1);
        assert(strip_comment(s) == seq![s[0]] + strip_comment(s.drop_first()));
        assert(seq![s[0]] + s.drop_first().take(i - 1) =~= s.take(i));
    }
}

/// A scan that skips exactly the leading whitespace has found the suffix
/// that `ltrim` keeps.
proof fn lemma_ltrim_at(s: Seq<char>, a: int)
    requires
        0 <= a <= s.len(),
        forall|j: int| 0 <= j < a ==> is_ws(s[j]),
        a == s.len() || !is_ws(s[a]),
    ensures
        ltrim(s) == s.skip(a),
    decreases a,
{
    if a == 0 {
        assert(ltrim(s) =~= s.skip(0));
    } else {
        lemma_ltrim_at(s.drop_first(), a - 1);
        assert(s.drop_first().skip(a - 1) =~= s.skip(a));
    }
}

/// A scan that drops exactly the trailing whitespace has found the prefix
/// that `rtrim` keeps.
proof fn lemma_rtrim_at(s: Seq<char>, b: int)
    requires
        0 <= b <= s.len(),
        forall|j: int| b <= j < s.len() ==> is_ws(s[j]),
        b == 0 || !is_ws(s[b - 1]),
    ensures
        rtrim(s) == s.take(b),
    decreases s.len() - b,
{
    if b == s.len() {
        if s.len() > 0 && is_ws(s.last()) {
            assert(false);
        }
        assert(rtrim(s) =~= s.take(s.len() as int));
    } else {
        assert(is_ws(s.last()));
        lemma_rtrim_at(s.drop_last(), b);
        assert(s.drop_last().take(b) =~= s.take(b));
    }
}

/// Executable comment stripping: the prefix before the first `'#'`.
pub fn strip_comment_str<'a>(s: &'a str) -> (r: &'a str)
    ensures
        r@ == strip_comment(s@),
{
    let n = s.unicode_len();
    let mut i: usize = 0;
    while i < n && s.get_char(i) != '#'
        invariant
            i <= n,
            n == s@.len(),
            forall|j: int| 0 <= j < i ==> s@[j] != '#',
        decreases n - i,
    {
        i = i + 1;
    }
    proof {
        lemma_strip_comment_at(s@, i as int);
    }
    s.substring_char(0, i)
}

/// Whether `c` is ASCII whitespace.
pub fn is_ws_char(c: char) -> (r: bool)
    ensures
        r == is_ws(c),
{
    c == ' ' || c == '\t' || c == '\n' || c == '\u{c}' || c == '\r'
}

/// Executable trimming of leading and trailing ASCII whitespace.
pub fn trim_str<'a>(s: &'a str) -> (r: &'a str)
    ensures
        r@ == trim(s@),
{
    let n = s.unicode_len();
    let mut a: usize = 0;
    while a < n && is_ws_char(s.get_char(a))
        invariant
            a <= n,
            n == s@.len(),
            forall|j: int| 0 <= j < a ==> is_ws(s@[j]),
        decreases n - a,
    {
        a = a + 1;
    }
    let mut b: usize = n;
    while b > a && is_ws_char(s.get_char(b - 1))
        invariant
            a <= b <= n,
            n == s@.len(),
            forall|j: int| b <= j < n ==> is_ws(s@[j]),
        decreases b,
    {
        b = b - 1;
    }
    proof {
        lemma_ltrim_at(s@, a as int);
        lemma_rtrim_at(s@.skip(a as int), b - a);
        assert(s@.skip(a as int).take(b - a) =~= s@.subrange(a as int, b as int));
    }
    s.substring_char(a, b)
}

/// Splitting yields at least one field.
pub proof fn lemma_split_on_nonempty(s: Seq<char>, sep: char)
    ensures
        split_on(s, sep).len() >= 1,
    decreases s.len(),
{
    if s.len() > 0 {
        lemma_split_on_nonempty(s.drop_last(), sep);
    }
}

/// Executable splitting on a separator character.
pub fn split_str(s: &str, sep: char) -> (r: Vec<String>)
    ensures
        r@.map_values(|f: String| f@) == split_on(s@, sep),
{
    let n = s.unicode_len();
    let mut out: Vec<String> = Vec::new();
    let mut st: usize = 0;
    let mut i: usize = 0;
    proof {
        assert(out@.map_values(|f: String| f@).push(s@.subrange(0, 0))
            =~~= split_on(s@.take(0), sep));
    }
    while i < n
        invariant
            st <= i <= n,
            n == s@.len(),
            out@.map_values(|f: String| f@).push(s@.subrange(st as int, i as int))
                == split_on(s@.take(i as int), sep),
        decreases n - i,
    {
        let ghost prefix = s@.take(i as int);
        let ghost fields = out@.map_values(|f: String| f@);
        let ghost old_st = st as int;
        let c = s.get_char(i);
        proof {
            assert(s@.take(i + 1).drop_last() =~= prefix);
            assert(s@.take(i + 1).last() == s@[i as int]);
            lemma_split_on_nonempty(prefix, sep);
        }
        if c == sep {
            let field = s.substring_char(st, i).to_owned();
            out.push(field);
            st = i + 1;
            proof {
                assert(out@.map_values(|f: String| f@)
                    =~= fields.push(s@.subrange(old_st, i as int)));
                assert(out@.map_values(|f: String| f@).push(s@.subrange(i + 1, i + 1))
                    =~~= split_on(prefix, sep).push(Seq::<char>::empty()));
            }
        } else {
            proof {
                let u = split_on(prefix, sep);
                assert(u.last() == s@.subrange(old_st, i as int));
                assert(u.update(u.len() - 1, u.last().push(s@[i as int]))
                    =~~= fields.push(s@.subrange(old_st, i + 1)));
            }
        }
        i = i + 1;
    }
    let ghost fields = out@.map_values(|f: String| f@);
    let field = s.substring_char(st, n).to_owned();
    out.push(field);
    proof {
        assert(s@.take(n as int) =~= s@);
        assert(out@.map_values(|f: String| f@)
            =~= fields.push(s@.subrange(st as int, n as int)));
    }
    out
}

/// The value of a digit string is never negative.
proof fn lemma_digits_val_nonneg(s: Seq<char>)
    requires
        all_digits(s),
    ensures
        digits_val(s) >= 0,
    decreases s.len(),
{
    if s.len() > 0 {
        assert(is_digit(s[s.len() - 1]));
        lemma_digits_val_nonneg(s.drop_last());
    }
}

/// Appending digits never decreases the value, so a prefix already out of
/// range dooms the whole string.
proof fn lemma_digits_val_prefix_le(s: Seq<char>, i: int)
    requires
        all_digits(s),
        0 <= i <= s.len(),
    ensures
        digits_val(s.take(i)) <= digits_val(s),
    decreases s.len(),
{
    if i == s.len() {
        assert(s.take(i) =~= s);
    } else {
        assert(s.drop_last().take(i) =~= s.take(i));
        lemma_digits_val_prefix_le(s.drop_last(), i);
        lemma_digits_val_nonneg(s.drop_last());
        assert(is_digit(s[s.len() - 1]));
    }
}

/// Executable decimal parsing of a 64-bit signed integer: an optional
/// leading `'-'`, then one or more digits, no other characters, the value in
/// range.  Returns `None` exactly when the text is not such a number.
pub fn parse_i64(s: &str) -> (r: Option<i64>)
    ensures
        r is Some <==> is_i64_text(s@),
        r matches Some(v) ==> v as int == i64_text_val(s@),
{
    let n = s.unicode_len();
    if n == 0 {
        return None;
    }
    let neg = s.get_char(0) == '-';
    let start: usize = if neg {
        1
    } else {
        0
    };
    let ghost dig: Seq<char> = s@.skip(start as int);
    proof {
        if neg {
            assert(dig =~= s@.drop_first());
        } else {
            assert(dig =~= s@);
        }
    }
    if start == n {
        return None;
    }
    let mut mag: u64 = 0;
    let mut i: usize = start;
    while i < n
        invariant
            start <= i <= n,
            n == s@.len(),
            n > 0,
            start == 1 <==> neg,
            start <= 1,
            neg == (s@[0] == '-'),
            dig == s@.skip(start as int),
            neg ==> dig == s@.drop_first(),
            !neg ==> dig == s@,
            all_digits(dig.take(i - start)),
            mag as int == digits_val(dig.take(i - start)),
        decreases n - i,
    {
        let ghost j = i - start;
        let c = s.get_char(i);
        let v = c as u32;
        proof {
            assert(dig[j] == s@[i as int]);
        }
        if v < 48 || v > 57 {
            proof {
                assert(!is_digit(dig[j]));
                assert(0 <= j < dig.len());
                assert(!all_digits(dig));
            }
            return None;
        }
        let d: u64 = (v - 48) as u64;
        proof {
            assert(dig.take(j + 1).drop_last() =~= dig.take(j));
            assert(dig.take(j + 1).last() == dig[j]);
            assert(all_digits(dig.take(j + 1)));
        }
        let stepped = match mag.checked_mul(10) {
            Some(m) => m.checked_add(d),
            None => None,
        };
        match stepped {
            Some(m) => {
                mag = m;
            },
            None => {
                proof {
                    assert(digits_val(dig.take(j + 1)) > u64::MAX);
                    if all_digits(dig) {
                        lemma_digits_val_prefix_le(dig, j + 1);
                    }
                }
                return None;
            },
        }
        i = i + 1;
    }
    proof {
        assert(dig.take(n - start) =~= dig);
    }
    if neg {
        if mag > 0x8000000000000000u64 {
            return None;
        }
        if mag == 0x8000000000000000u64 {
            Some(i64::MIN)
        } else {
            Some(-(mag as i64))
        }
    } else {
        if mag > 0x7fffffffffffffffu64 {
            return None;
        }
        Some(mag as i64)
    }
}

} // verus!
