//! Character-level scanning: whitespace, digit runs, unit-symbol runs and
//! floating-point literals, each with a specification-level model over the
//! input's character sequence.

use vstd::prelude::*;
use vstd::string::StrSliceExecFns;

verus! {

/// Whitespace as the grammar understands it: space, tab, carriage return, newline.
pub open spec fn is_space(c: char) -> bool {
    c == ' ' || c == '\t' || c == '\r' || c == '\n'
}

/// A decimal digit.
pub open spec fn is_digit(c: char) -> bool {
    48 <= c as u32 && c as u32 <= 57
}

/// The numeric value of a decimal digit.
pub open spec fn digit_val(c: char) -> int {
    c as u32 - 48
}

/// A character that may stand in a unit symbol: an ASCII letter, or the ohm
/// sign (U+03A9).
pub open spec fn is_symbol_char(c: char) -> bool {
    (65 <= c as u32 && c as u32 <= 90) || (97 <= c as u32 && c as u32 <= 122) || c as u32 == 937
}

/// The first position at or after `pos` that does not hold whitespace.
pub open spec fn spec_skip_ws(s: Seq<char>, pos: nat) -> nat
    recommends
        pos <= s.len(),
    decreases s.len() - pos
        when pos <= s.len()
{
    if pos < s.len() && is_space(s[pos as int]) {
        spec_skip_ws(s, pos + 1)
    } else {
        pos
    }
}

/// The end of the run of decimal digits that starts at `pos`.
pub open spec fn spec_digits_end(s: Seq<char>, pos: nat) -> nat
    recommends
        pos <= s.len(),
    decreases s.len() - pos
        when pos <= s.len()
{
    if pos < s.len() && is_digit(s[pos as int]) {
        spec_digits_end(s, pos + 1)
    } else {
        pos
    }
}

proof fn lemma_digits_end_facts(s: Seq<char>, pos: nat)
    requires
        pos <= s.len(),
    ensures
        pos <= spec_digits_end(s, pos) <= s.len(),
        forall|j: int| pos <= j < spec_digits_end(s, pos) ==> is_digit(#[trigger] s[j]),
        spec_digits_end(s, pos) < s.len() ==> !is_digit(s[spec_digits_end(s, pos) as int]),
    decreases s.len() - pos,
{
    if pos < s.len() && is_digit(s[pos as int]) {
        lemma_digits_end_facts(s, pos + 1);
    }
}

/// The end of the run of unit-symbol characters that starts at `pos`.
pub open spec fn spec_word_end(s: Seq<char>, pos: nat) -> nat
    recommends
        pos <= s.len(),
    decreases s.len() - pos
        when pos <= s.len()
{
    if pos < s.len() && is_symbol_char(s[pos as int]) {
        spec_word_end(s, pos + 1)
    } else {
        pos
    }
}

/// The value of the digit run in `s[pos..end)`, read as a decimal number.
pub open spec fn spec_digits_val(s: Seq<char>, pos: nat, end: nat) -> int
    recommends
        pos <= end <= s.len(),
    decreases end - pos
        when pos <= end
{
    if pos < end {
        spec_digits_val(s, pos, (end - 1) as nat) * 10 + digit_val(s[end - 1])
    } else {
        0
    }
}

/// Over a run of digits the value is non-negative and grows (weakly) with the
/// length of the prefix read.
proof fn lemma_digits_val_grows(s: Seq<char>, pos: nat, a: nat, b: nat)
    requires
        pos <= a <= b <= s.len(),
        forall|j: int| pos <= j < b ==> is_digit(#[trigger] s[j]),
    ensures
        0 <= spec_digits_val(s, pos, a) <= spec_digits_val(s, pos, b),
    decreases b - pos, b - a,
{
    if a < b {
        lemma_digits_val_grows(s, pos, a, (b - 1) as nat);
    } else if pos < a {
        lemma_digits_val_grows(s, pos, (a - 1) as nat, (b - 1) as nat);
    }
}

/// A signed decimal integer at `pos`: an optional minus sign, then one or more
/// digits, rejected when the value does not fit in `i64`.
pub open spec fn spec_signed_int(s: Seq<char>, pos: nat) -> Option<(i64, nat)>
    recommends
        pos <= s.len(),
{
    let neg = pos < s.len() && s[pos as int] == '-';
    let p1 = if neg {
        pos + 1
    } else {
        pos
    };
    let e = spec_digits_end(s, p1);
    if e == p1 {
        None
    } else {
        let m = spec_digits_val(s, p1, e);
        let v = if neg {
            -m
        } else {
            m
        };
        if i64::MIN <= v <= i64::MAX {
            Some(((v as i64), e))
        } else {
            None
        }
    }
}

/// The end of the floating-point literal that starts at `pos`: an optional
/// sign, a mantissa (digits with an optional fractional part, or a dot with
/// mandatory digits), and an optional exponent with mandatory digits. `None`
/// when no literal starts at `pos`.
pub open spec fn spec_float_end(s: Seq<char>, pos: nat) -> Option<nat>
    recommends
        pos <= s.len(),
{
    let p1 = if pos < s.len() && (s[pos as int] == '+' || s[pos as int] == '-') {
        pos + 1
    } else {
        pos
    };
    let di = spec_digits_end(s, p1);
    let mantissa = if di > p1 {
        if di < s.len() && s[di as int] == '.' {
            Some(spec_digits_end(s, di + 1))
        } else {
            Some(di)
        }
    } else if p1 < s.len() && s[p1 as int] == '.' && spec_digits_end(s, p1 + 1) > p1 + 1 {
        Some(spec_digits_end(s, p1 + 1))
    } else {
        None
    };
    match mantissa {
        None => None,
        Some(m) => {
            if m < s.len() && (s[m as int] == 'e' || s[m as int] == 'E') {
                let pe = if m + 1 < s.len() && (s[(m + 1) as int] == '+' || s[(m + 1) as int]
                    == '-') {
                    m + 2
                } else {
                    m + 1
                };
                let de = spec_digits_end(s, pe);
                if de > pe {
                    Some(de)
                } else {
                    Some(m)
                }
            } else {
                Some(m)
            }
        },
    }
}

/// A whole string that is exactly one floating-point literal.
pub open spec fn is_float_token(t: Seq<char>) -> bool {
    spec_float_end(t, 0) == Some(t.len())
}

proof fn lemma_float_end_bounds(s: Seq<char>, pos: nat)
    requires
        pos <= s.len(),
        spec_float_end(s, pos) is Some,
    ensures
        pos < spec_float_end(s, pos)->Some_0 <= s.len(),
{
    let p1 = if pos < s.len() && (s[pos as int] == '+' || s[pos as int] == '-') {
        pos + 1
    } else {
        pos
    };
    lemma_digits_end_facts(s, p1);
    let di = spec_digits_end(s, p1);
    if di > p1 {
        if di < s.len() && s[di as int] == '.' {
            lemma_digits_end_facts(s, di + 1);
        }
    } else if p1 < s.len() && s[p1 as int] == '.' {
        lemma_digits_end_facts(s, p1 + 1);
    }
    // The mantissa, when present, ends strictly after `pos` and within `s`.
    let mantissa = if di > p1 {
        if di < s.len() && s[di as int] == '.' {
            Some(spec_digits_end(s, di + 1))
        } else {
            Some(di)
        }
    } else if p1 < s.len() && s[p1 as int] == '.' && spec_digits_end(s, p1 + 1) > p1 + 1 {
        Some(spec_digits_end(s, p1 + 1))
    } else {
        None
    };
    let m = mantissa->Some_0;
    if m < s.len() && (s[m as int] == 'e' || s[m as int] == 'E') {
        let pe = if m + 1 < s.len() && (s[(m + 1) as int] == '+' || s[(m + 1) as int] == '-') {
            m + 2
        } else {
            m + 1
        };
        if pe <= s.len() {
            lemma_digits_end_facts(s, pe);
        }
    }
}

/// A digit run lies unchanged in any enclosing window of the text, as long as
/// the window covers it.
proof fn lemma_digits_end_slice(s: Seq<char>, lo: nat, hi: nat, pos: nat)
    requires
        lo <= pos <= hi <= s.len(),
        spec_digits_end(s, pos) <= hi,
    ensures
        spec_digits_end(s.subrange(lo as int, hi as int), (pos - lo) as nat) == spec_digits_end(
            s,
            pos,
        ) - lo,
    decreases hi - pos,
{
    let t = s.subrange(lo as int, hi as int);
    lemma_digits_end_facts(s, pos);
    if pos < hi && is_digit(s[pos as int]) {
        assert(t[(pos - lo) as int] == s[pos as int]);
        lemma_digits_end_slice(s, lo, hi, pos + 1);
    } else {
        assert(spec_digits_end(s, pos) == pos);
        if pos - lo < t.len() {
            assert(t[(pos - lo) as int] == s[pos as int]);
        }
    }
}

/// A float literal recognized inside a larger text is, taken by itself, a
/// complete float token.
#[verifier::rlimit(50)]
pub(crate) proof fn lemma_float_token_slice(s: Seq<char>, pos: nat)
    requires
        pos <= s.len(),
        spec_float_end(s, pos) is Some,
    ensures
        is_float_token(
            s.subrange(pos as int, spec_float_end(s, pos)->Some_0 as int),
        ),
{
    lemma_float_end_bounds(s, pos);
    let e = spec_float_end(s, pos)->Some_0;
    let t = s.subrange(pos as int, e as int);
    assert(forall|i: int| 0 <= i < t.len() ==> t[i] == s[pos + i]);

    let p1 = if pos < s.len() && (s[pos as int] == '+' || s[pos as int] == '-') {
        pos + 1
    } else {
        pos
    };
    let di = spec_digits_end(s, p1);
    lemma_digits_end_facts(s, p1);
    let mantissa = if di > p1 {
        if di < s.len() && s[di as int] == '.' {
            Some(spec_digits_end(s, di + 1))
        } else {
            Some(di)
        }
    } else if p1 < s.len() && s[p1 as int] == '.' && spec_digits_end(s, p1 + 1) > p1 + 1 {
        Some(spec_digits_end(s, p1 + 1))
    } else {
        None
    };
    let m = mantissa->Some_0;

    // The mantissa end, and every digit run inside the token, lie within it.
    if m < s.len() && (s[m as int] == 'e' || s[m as int] == 'E') {
        let pe = if m + 1 < s.len() && (s[(m + 1) as int] == '+' || s[(m + 1) as int] == '-') {
            m + 2
        } else {
            m + 1
        };
        lemma_digits_end_facts(s, pe);
    }
    assert(m <= e);

    // The sign, if any, is the token's first character.
    if pos < s.len() && (s[pos as int] == '+' || s[pos as int] == '-') {
        assert(t[0] == s[pos as int]);
    }

    // The integer-part digit run carries over.
    if di > p1 {
        if di < s.len() && s[di as int] == '.' {
            lemma_digits_end_facts(s, di + 1);
            assert(di < e);
            assert(t[(di - pos) as int] == s[di as int]);
            lemma_digits_end_slice(s, pos, e, p1);
            lemma_digits_end_slice(s, pos, e, di + 1);
        } else {
            lemma_digits_end_slice(s, pos, e, p1);
            if di < e {
                assert(t[(di - pos) as int] == s[di as int]);
            }
        }
    } else if p1 < s.len() && s[p1 as int] == '.' && spec_digits_end(s, p1 + 1) > p1 + 1 {
        lemma_digits_end_facts(s, p1 + 1);
        lemma_digits_end_slice(s, pos, e, p1);
        assert(p1 < e);
        assert(t[(p1 - pos) as int] == s[p1 as int]);
        lemma_digits_end_slice(s, pos, e, p1 + 1);
    }

    // The exponent part carries over, or falls wholly outside the token.
    if m < s.len() && (s[m as int] == 'e' || s[m as int] == 'E') {
        let pe = if m + 1 < s.len() && (s[(m + 1) as int] == '+' || s[(m + 1) as int] == '-') {
            m + 2
        } else {
            m + 1
        };
        let de = spec_digits_end(s, pe);
        if de > pe {
            assert(e == de);
            assert(m < e);
            assert(t[(m - pos) as int] == s[m as int]);
            if m + 1 < s.len() && (s[(m + 1) as int] == '+' || s[(m + 1) as int] == '-') {
                assert(m + 1 < e);
                assert(t[(m + 1 - pos) as int] == s[(m + 1) as int]);
            } else if m + 1 < e {
                assert(t[(m + 1 - pos) as int] == s[(m + 1) as int]);
            }
            lemma_digits_end_slice(s, pos, e, pe);
        } else {
            assert(e == m);
        }
    } else {
        assert(e == m);
    }
}

fn space_char(c: char) -> (b: bool)
    ensures
        b == is_space(c),
{
    c == ' ' || c == '\t' || c == '\r' || c == '\n'
}

fn digit_char(c: char) -> (b: bool)
    ensures
        b == is_digit(c),
{
    let u = c as u32;
    48 <= u && u <= 57
}

fn symbol_char(c: char) -> (b: bool)
    ensures
        b == is_symbol_char(c),
{
    let u = c as u32;
    (65 <= u && u <= 90) || (97 <= u && u <= 122) || u == 937
}

/// Advances past whitespace.
pub(crate) fn skip_ws(s: &str, pos: usize) -> (r: usize)
    requires
        pos <= s@.len(),
    ensures
        r == spec_skip_ws(s@, pos as nat),
        pos <= r <= s@.len(),
{
    let n = s.unicode_len();
    let mut i: usize = pos;
    loop
        invariant
            pos <= i <= n,
            n == s@.len(),
            spec_skip_ws(s@, pos as nat) == spec_skip_ws(s@, i as nat),
        decreases n - i,
    {
        if i < n && space_char(s.get_char(i)) {
            i = i + 1;
        } else {
            return i;
        }
    }
}

/// The end of the digit run starting at `pos`.
fn digits_end(s: &str, pos: usize) -> (r: usize)
    requires
        pos <= s@.len(),
    ensures
        r == spec_digits_end(s@, pos as nat),
        pos <= r <= s@.len(),
{
    let n = s.unicode_len();
    let mut i: usize = pos;
    loop
        invariant
            pos <= i <= n,
            n == s@.len(),
            spec_digits_end(s@, pos as nat) == spec_digits_end(s@, i as nat),
        decreases n - i,
    {
        if i < n && digit_char(s.get_char(i)) {
            i = i + 1;
        } else {
            return i;
        }
    }
}

/// The end of the run of unit-symbol characters starting at `pos`.
pub fn word(s: &str, pos: usize) -> (r: usize)
    requires
        pos <= s@.len(),
    ensures
        r == spec_word_end(s@, pos as nat),
        pos <= r <= s@.len(),
{
    let n = s.unicode_len();
    let mut i: usize = pos;
    loop
        invariant
            pos <= i <= n,
            n == s@.len(),
            spec_word_end(s@, pos as nat) == spec_word_end(s@, i as nat),
        decreases n - i,
    {
        if i < n && symbol_char(s.get_char(i)) {
            i = i + 1;
        } else {
            return i;
        }
    }
}

/// Parses a signed decimal integer, exactly as `spec_signed_int` describes it:
/// an optional minus sign, one or more digits, and a value that fits in `i64`.
#[verifier::loop_isolation(false)]
pub(crate) fn parse_isize(s: &str, pos: usize) -> (r: Option<(i64, usize)>)
    requires
        pos <= s@.len(),
    ensures
        match r {
            Some((v, e)) => spec_signed_int(s@, pos as nat) == Some((v, e as nat)) && pos < e
                <= s@.len(),
            None => spec_signed_int(s@, pos as nat) is None,
        },
{
    let n = s.unicode_len();
    let neg: bool = pos < n && s.get_char(pos) == '-';
    let p1: usize = if neg {
        pos + 1
    } else {
        pos
    };
    let e = digits_end(s, p1);
    if e == p1 {
        return None;
    }
    proof {
        lemma_digits_end_facts(s@, p1 as nat);
    }
    let mut acc: u128 = 0;
    let mut i: usize = p1;
    while i < e
        invariant
            p1 <= i <= e,
            e == spec_digits_end(s@, p1 as nat),
            e <= s@.len() && n == s@.len(),
            forall|j: int| p1 <= j < e ==> is_digit(#[trigger] s@[j]),
            acc == spec_digits_val(s@, p1 as nat, i as nat),
            acc <= 0x8000_0000_0000_0000u128,
        decreases e - i,
    {
        let c = s.get_char(i);
        let d: u128 = ((c as u32) - 48) as u128;
        proof {
            assert(is_digit(s@[i as int]));
            assert(spec_digits_val(s@, p1 as nat, (i + 1) as nat) == spec_digits_val(
                s@,
                p1 as nat,
                i as nat,
            ) * 10 + digit_val(s@[i as int]));
        }
        acc = acc * 10 + d;
        i = i + 1;
        if acc > 0x8000_0000_0000_0000u128 {
            proof {
                lemma_digits_val_grows(s@, p1 as nat, i as nat, e as nat);
                assert(spec_digits_val(s@, p1 as nat, e as nat) > 0x8000_0000_0000_0000);
                assert(spec_signed_int(s@, pos as nat) is None);
            }
            return None;
        }
    }
    if neg {
        if acc == 0x8000_0000_0000_0000u128 {
            Some((i64::MIN, e))
        } else {
            Some((-(acc as i64), e))
        }
    } else {
        if acc > 0x7FFF_FFFF_FFFF_FFFFu128 {
            None
        } else {
            Some((acc as i64, e))
        }
    }
}

/// Recognizes the floating-point literal starting at `pos`, returning the
/// position just past it.
pub(crate) fn float_end(s: &str, pos: usize) -> (r: Option<usize>)
    requires
        pos <= s@.len(),
    ensures
        match r {
            Some(e) => spec_float_end(s@, pos as nat) == Some(e as nat) && pos < e <= s@.len(),
            None => spec_float_end(s@, pos as nat) is None,
        },
{
    let n = s.unicode_len();
    let p1: usize = if pos < n && (s.get_char(pos) == '+' || s.get_char(pos) == '-') {
        pos + 1
    } else {
        pos
    };
    let di = digits_end(s, p1);
    let mantissa: Option<usize> = if di > p1 {
        if di < n && s.get_char(di) == '.' {
            Some(digits_end(s, di + 1))
        } else {
            Some(di)
        }
    } else if p1 < n && s.get_char(p1) == '.' {
        let df = digits_end(s, p1 + 1);
        if df > p1 + 1 {
            Some(df)
        } else {
            None
        }
    } else {
        None
    };
    match mantissa {
        None => None,
        Some(m) => {
            if m < n && (s.get_char(m) == 'e' || s.get_char(m) == 'E') {
                let pe: usize = if m + 1 < n && (s.get_char(m + 1) == '+' || s.get_char(m + 1)
                    == '-') {
                    m + 2
                } else {
                    m + 1
                };
                let de = digits_end(s, pe);
                if de > pe {
                    Some(de)
                } else {
                    Some(m)
                }
            } else {
                Some(m)
            }
        },
    }
}

/// Whether `s[start..end)` holds exactly the characters of `lit`.
pub(crate) fn span_eq(s: &str, start: usize, end: usize, lit: &str) -> (b: bool)
    requires
        start <= end <= s@.len(),
    ensures
        b == (s@.subrange(start as int, end as int) == lit@),
{
    let n = lit.unicode_len();
    if end - start != n {
        proof {
            assert(s@.subrange(start as int, end as int).len() == end - start);
        }
        return false;
    }
    let mut i: usize = 0;
    while i < n
        invariant
            0 <= i <= n,
            n == lit@.len(),
            start <= end <= s@.len(),
            end - start == n,
            forall|j: int| 0 <= j < i ==> s@[start + j] == lit@[j],
        decreases n - i,
    {
        if s.get_char(start + i) != lit.get_char(i) {
            proof {
                assert(s@.subrange(start as int, end as int)[i as int] == s@[start + i]);
            }
            return false;
        }
        i = i + 1;
    }
    proof {
        assert forall|j: int| 0 <= j < n implies s@.subrange(start as int, end as int)[j]
            == lit@[j] by {
            assert(s@.subrange(start as int, end as int)[j] == s@[start + j]);
        }
        assert(s@.subrange(start as int, end as int) =~= lit@);
    }
    true
}

} // verus!
