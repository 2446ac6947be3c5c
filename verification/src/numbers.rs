//! Decimal integer parsing and floating-point literal validation for the
//! textual field values a Torznab feed carries.
//!
//! Unsigned integers follow the grammar of Rust's `from_str` for unsigned
//! types: an optional leading `+` sign, then one or more ASCII digits, with
//! values above the target type's maximum rejected. Floating-point literals
//! follow the grammar documented for `f32::from_str`: an optional sign, then
//! either a case-insensitive `inf`, `infinity` or `nan`, or a mantissa of
//! digits with at most one `.` and an optional `e`/`E` exponent. The library
//! never computes with floats itself; it validates the text and hands it on.

use vstd::prelude::*;

verus! {

/// Whether `c` is an ASCII decimal digit.
pub open spec fn is_digit(c: char) -> bool {
    48 <= c as int && c as int <= 57
}

/// The numeric value of an ASCII decimal digit.
pub open spec fn digit_val(c: char) -> nat {
    (c as int - 48) as nat
}

/// The value of a sequence of ASCII decimal digits, most significant first.
pub open spec fn dec_val(s: Seq<char>) -> nat
    decreases s.len(),
{
    if s.len() == 0 {
        0
    } else {
        dec_val(s.drop_last()) * 10 + digit_val(s.last())
    }
}

/// Whether every character of `s` is an ASCII decimal digit.
pub open spec fn all_digits(s: Seq<char>) -> bool {
    forall|i: int| 0 <= i < s.len() ==> is_digit(#[trigger] s[i])
}

/// `s` without a single leading `+`, if it has one.
pub open spec fn strip_plus(s: Seq<char>) -> Seq<char> {
    if s.len() > 0 && s[0] == '+' {
        s.drop_first()
    } else {
        s
    }
}

/// The `u64` a piece of text denotes as an unsigned decimal integer, or
/// `None` when it denotes none (empty, a stray character, or a value above
/// `u64::MAX`).
pub open spec fn u64_of_dec(s: Seq<char>) -> Option<u64> {
    let t = strip_plus(s);
    if t.len() > 0 && all_digits(t) && dec_val(t) <= u64::MAX {
        Some(dec_val(t) as u64)
    } else {
        None
    }
}

/// As [`u64_of_dec`], bounded by `u32::MAX`.
pub open spec fn u32_of_dec(s: Seq<char>) -> Option<u32> {
    let t = strip_plus(s);
    if t.len() > 0 && all_digits(t) && dec_val(t) <= u32::MAX {
        Some(dec_val(t) as u32)
    } else {
        None
    }
}

/// As [`u64_of_dec`], bounded by `u16::MAX`.
pub open spec fn u16_of_dec(s: Seq<char>) -> Option<u16> {
    let t = strip_plus(s);
    if t.len() > 0 && all_digits(t) && dec_val(t) <= u16::MAX {
        Some(dec_val(t) as u16)
    } else {
        None
    }
}

/// A digit prefix never denotes more than the whole digit string.
proof fn lemma_dec_val_take_le(s: Seq<char>, k: int)
    requires
        0 <= k <= s.len(),
    ensures
        dec_val(s.take(k)) <= dec_val(s),
    decreases s.len() - k,
{
    if k < s.len() {
        assert(s.take(k + 1).drop_last() =~= s.take(k));
        assert(s.take(k + 1).last() == s[k]);
        assert(dec_val(s.take(k + 1)) == dec_val(s.take(k)) * 10 + digit_val(s[k]));
        lemma_dec_val_take_le(s, k + 1);
    } else {
        assert(s.take(k) =~= s);
    }
}

/// Parses an unsigned decimal integer, exactly as [`u64_of_dec`] describes.
pub fn parse_u64(s: &str) -> (r: Option<u64>)
    ensures
        r == u64_of_dec(s@),
{
    let n = s.unicode_len();
    let start: usize = if n > 0 && s.get_char(0) == '+' {
        1
    } else {
        0
    };
    let ghost t = strip_plus(s@);
    proof {
        assert(t =~= s@.subrange(start as int, n as int));
    }
    if start == n {
        return None;
    }
    let mut acc: u64 = 0;
    let mut i: usize = start;
    while i < n
        invariant
            n == s@.len(),
            start <= i <= n,
            start < n,
            t == strip_plus(s@),
            t =~= s@.subrange(start as int, n as int),
            all_digits(t.take(i - start)),
            acc == dec_val(t.take(i - start)),
        decreases n - i,
    {
        let c = s.get_char(i);
        let cv = c as u32;
        let ghost k = i - start;
        proof {
            assert(t[k] == s@[i as int]);
        }
        if !(48 <= cv && cv <= 57) {
            assert(!is_digit(t[k]));
            return None;
        }
        let d = (cv - 48) as u64;
        proof {
            assert(t.take(k + 1).drop_last() =~= t.take(k));
            assert(t.take(k + 1).last() == t[k]);
            assert(dec_val(t.take(k + 1)) == dec_val(t.take(k)) * 10 + digit_val(t[k]));
        }
        let next = match acc.checked_mul(10) {
            Some(m) => m.checked_add(d),
            None => None,
        };
        match next {
            Some(v) => {
                acc = v;
            },
            None => {
                proof {
                    assert(dec_val(t.take(k + 1)) > u64::MAX);
                    lemma_dec_val_take_le(t, k + 1);
                }
                return None;
            },
        }
        proof {
            assert forall|j: int| 0 <= j < k + 1 implies is_digit(#[trigger] t.take(k + 1)[j]) by {
                if j < k {
                    assert(t.take(k + 1)[j] == t.take(k)[j]);
                }
            }
        }
        i += 1;
    }
    proof {
        assert(t.take(n - start) =~= t);
    }
    Some(acc)
}

/// Parses an unsigned decimal integer, exactly as [`u32_of_dec`] describes.
pub fn parse_u32(s: &str) -> (r: Option<u32>)
    ensures
        r == u32_of_dec(s@),
{
    match parse_u64(s) {
        Some(v) => {
            if v <= 0xffff_ffff {
                Some(v as u32)
            } else {
                proof {
                    assert(dec_val(strip_plus(s@)) > u32::MAX);
                }
                None
            }
        },
        None => None,
    }
}

/// Parses an unsigned decimal integer, exactly as [`u16_of_dec`] describes.
pub fn parse_u16(s: &str) -> (r: Option<u16>)
    ensures
        r == u16_of_dec(s@),
{
    match parse_u64(s) {
        Some(v) => {
            if v <= 0xffff {
                Some(v as u16)
            } else {
                proof {
                    assert(dec_val(strip_plus(s@)) > u16::MAX);
                }
                None
            }
        },
        None => None,
    }
}

/// Case-insensitive match of `c` against a lowercase ASCII letter `lo`.
pub open spec fn ci_eq(c: char, lo: char) -> bool {
    c == lo || c as int + 32 == lo as int
}

/// `s` without a single leading `+` or `-`, if it has one.
pub open spec fn strip_sign(s: Seq<char>) -> Seq<char> {
    if s.len() > 0 && (s[0] == '+' || s[0] == '-') {
        s.drop_first()
    } else {
        s
    }
}

/// Case-insensitive `inf`.
pub open spec fn is_inf(t: Seq<char>) -> bool {
    t.len() == 3 && ci_eq(t[0], 'i') && ci_eq(t[1], 'n') && ci_eq(t[2], 'f')
}

/// Case-insensitive `infinity`.
pub open spec fn is_infinity(t: Seq<char>) -> bool {
    t.len() == 8 && ci_eq(t[0], 'i') && ci_eq(t[1], 'n') && ci_eq(t[2], 'f') && ci_eq(t[3], 'i')
        && ci_eq(t[4], 'n') && ci_eq(t[5], 'i') && ci_eq(t[6], 't') && ci_eq(t[7], 'y')
}

/// Case-insensitive `nan`.
pub open spec fn is_nan(t: Seq<char>) -> bool {
    t.len() == 3 && ci_eq(t[0], 'n') && ci_eq(t[1], 'a') && ci_eq(t[2], 'n')
}

/// How many characters of `s` are `.`.
pub open spec fn dot_count(s: Seq<char>) -> nat
    decreases s.len(),
{
    if s.len() == 0 {
        0
    } else {
        dot_count(s.drop_last()) + (if s.last() == '.' {
            1nat
        } else {
            0nat
        })
    }
}

/// Whether some character of `s` is an ASCII decimal digit.
pub open spec fn has_digit(s: Seq<char>) -> bool {
    exists|i: int| 0 <= i < s.len() && is_digit(#[trigger] s[i])
}

/// A mantissa: nonempty, only digits and at most one `.`, at least one digit.
/// This is `Digit+`, `Digit+ '.' Digit*` or `Digit* '.' Digit+` in the
/// grammar `f32::from_str` documents.
pub open spec fn is_mantissa(t: Seq<char>) -> bool {
    t.len() > 0 && (forall|i: int|
        0 <= i < t.len() ==> is_digit(#[trigger] t[i]) || t[i] == '.') && dot_count(t) <= 1
        && has_digit(t)
}

/// An exponent body: an optional sign, then one or more digits.
pub open spec fn is_exp_suffix(t: Seq<char>) -> bool {
    let u = strip_sign(t);
    u.len() > 0 && all_digits(u)
}

/// A number: a mantissa, optionally followed by `e`/`E` and an exponent.
/// The split is at the first `e`/`E` of the text; a second one can only sit
/// in the exponent body, where no letter is admitted, so the choice of the
/// first occurrence loses nothing.
pub open spec fn is_number(t: Seq<char>) -> bool {
    ((forall|j: int| 0 <= j < t.len() ==> !ci_eq(#[trigger] t[j], 'e')) && is_mantissa(t))
        || (exists|k: int|
        0 <= k < t.len() && ci_eq(#[trigger] t[k], 'e') && (forall|j: int|
            0 <= j < k ==> !ci_eq(#[trigger] t[j], 'e')) && is_mantissa(t.take(k))
            && is_exp_suffix(t.skip(k + 1)))
}

/// Whether a piece of text is a floating-point literal in the grammar
/// documented for `f32::from_str`: an optional sign, then a case-insensitive
/// `inf`, `infinity` or `nan`, or a number.
pub open spec fn is_float_text(s: Seq<char>) -> bool {
    let t = strip_sign(s);
    is_inf(t) || is_infinity(t) || is_nan(t) || is_number(t)
}

/// Checks one character case-insensitively against a lowercase letter.
fn ci_check(c: char, lo: char) -> (r: bool)
    ensures
        r == ci_eq(c, lo),
{
    c == lo || (c as u32) + 32 == lo as u32
}

/// Checks a mantissa slice `t[from..to]` of the stripped text.
fn check_mantissa(s: &str, from: usize, to: usize) -> (r: bool)
    requires
        from <= to <= s@.len(),
    ensures
        r == is_mantissa(s@.subrange(from as int, to as int)),
{
    let ghost t = s@.subrange(from as int, to as int);
    if from == to {
        return false;
    }
    let mut dots: u64 = 0;
    let mut digit_seen = false;
    let mut i = from;
    while i < to
        invariant
            from <= i <= to <= s@.len(),
            t =~= s@.subrange(from as int, to as int),
            forall|j: int| 0 <= j < i - from ==> is_digit(#[trigger] t[j]) || t[j] == '.',
            dots == dot_count(t.take(i - from)),
            dots <= i - from,
            digit_seen == has_digit(t.take(i - from)),
        decreases to - i,
    {
        let c = s.get_char(i);
        let cv = c as u32;
        let ghost k = i - from;
        proof {
            assert(t[k] == s@[i as int]);
            assert(t.take(k + 1).drop_last() =~= t.take(k));
            assert(t.take(k + 1).last() == t[k]);
        }
        if 48 <= cv && cv <= 57 {
            proof {
                if !digit_seen {
                    assert(is_digit(t.take(k + 1)[k]));
                }
                assert(has_digit(t.take(k + 1)));
            }
            digit_seen = true;
        } else if c == '.' {
            dots += 1;
            proof {
                if digit_seen {
                    let w = choose|w: int| 0 <= w < k && is_digit(#[trigger] t.take(k)[w]);
                    assert(is_digit(t.take(k + 1)[w]));
                }
            }
        } else {
            assert(!(is_digit(t[k]) || t[k] == '.'));
            return false;
        }
        proof {
            if has_digit(t.take(k + 1)) && !is_digit(t[k]) {
                let w = choose|w: int| 0 <= w < k + 1 && is_digit(#[trigger] t.take(k + 1)[w]);
                assert(is_digit(t.take(k)[w]));
            }
        }
        i += 1;
    }
    proof {
        assert(t.take(to - from) =~= t);
    }
    dots <= 1 && digit_seen
}

/// Checks an exponent body slice `t[from..to]`: optional sign, then digits.
fn check_exp_suffix(s: &str, from: usize, to: usize) -> (r: bool)
    requires
        from <= to <= s@.len(),
    ensures
        r == is_exp_suffix(s@.subrange(from as int, to as int)),
{
    let ghost t = s@.subrange(from as int, to as int);
    let start: usize = if from < to && (s.get_char(from) == '+' || s.get_char(from) == '-') {
        from + 1
    } else {
        from
    };
    let ghost u = strip_sign(t);
    proof {
        assert(u =~= s@.subrange(start as int, to as int));
    }
    if start == to {
        return false;
    }
    let mut i = start;
    while i < to
        invariant
            from <= start <= i <= to <= s@.len(),
            u == strip_sign(s@.subrange(from as int, to as int)),
            u =~= s@.subrange(start as int, to as int),
            forall|j: int| 0 <= j < i - start ==> is_digit(#[trigger] u[j]),
        decreases to - i,
    {
        let c = s.get_char(i);
        let cv = c as u32;
        proof {
            assert(u[i - start] == s@[i as int]);
        }
        if !(48 <= cv && cv <= 57) {
            assert(!is_digit(u[i - start]));
            return false;
        }
        i += 1;
    }
    assert(all_digits(u));
    true
}

/// Whether `s` is a floating-point literal, exactly as [`is_float_text`]
/// describes. The library stores such text instead of a float value; a
/// caller that needs the number converts it outside the verified core.
pub fn is_float_literal(s: &str) -> (r: bool)
    ensures
        r == is_float_text(s@),
{
    let n = s.unicode_len();
    let start: usize = if n > 0 && {
        let c = s.get_char(0);
        c == '+' || c == '-'
    } {
        1
    } else {
        0
    };
    let ghost t = strip_sign(s@);
    proof {
        assert(t =~= s@.subrange(start as int, n as int));
    }
    let m = n - start;
    if m == 3 && ci_check(s.get_char(start), 'i') && ci_check(s.get_char(start + 1), 'n')
        && ci_check(s.get_char(start + 2), 'f') {
        assert(is_inf(t));
        return true;
    }
    if m == 8 && ci_check(s.get_char(start), 'i') && ci_check(s.get_char(start + 1), 'n')
        && ci_check(s.get_char(start + 2), 'f') && ci_check(s.get_char(start + 3), 'i')
        && ci_check(s.get_char(start + 4), 'n') && ci_check(s.get_char(start + 5), 'i')
        && ci_check(s.get_char(start + 6), 't') && ci_check(s.get_char(start + 7), 'y') {
        assert(is_infinity(t));
        return true;
    }
    if m == 3 && ci_check(s.get_char(start), 'n') && ci_check(s.get_char(start + 1), 'a')
        && ci_check(s.get_char(start + 2), 'n') {
        assert(is_nan(t));
        return true;
    }
    // Find the first `e`/`E` of the stripped text, if any.
    let mut i = start;
    let mut exp_at: Option<usize> = None;
    while i < n && exp_at.is_none()
        invariant
            start <= i <= n == s@.len(),
            t =~= s@.subrange(start as int, n as int),
            match exp_at {
                None => forall|j: int| 0 <= j < i - start ==> !ci_eq(#[trigger] t[j], 'e'),
                Some(k) => start <= k < n && i == k + 1 && ci_eq(t[k - start], 'e')
                    && forall|j: int| 0 <= j < k - start ==> !ci_eq(#[trigger] t[j], 'e'),
            },
        decreases n - i,
    {
        proof {
            assert(t[i - start] == s@[i as int]);
        }
        if ci_check(s.get_char(i), 'e') {
            exp_at = Some(i);
        }
        i += 1;
    }
    match exp_at {
        None => {
            let r = check_mantissa(s, start, n);
            proof {
                assert(s@.subrange(start as int, n as int) =~= t);
                if !r {
                    assert forall|k: int|
                        !(0 <= k < t.len() && ci_eq(#[trigger] t[k], 'e') && (forall|j: int|
                            0 <= j < k ==> !ci_eq(#[trigger] t[j], 'e')) && is_mantissa(t.take(k))
                            && is_exp_suffix(t.skip(k + 1))) by {}
                }
            }
            r
        },
        Some(k) => {
            let ghost ks = k - start;
            let mant = check_mantissa(s, start, k);
            let exps = check_exp_suffix(s, k + 1, n);
            proof {
                assert(s@.subrange(start as int, k as int) =~= t.take(ks));
                assert(s@.subrange(k as int + 1, n as int) =~= t.skip(ks + 1));
            }
            if mant && exps {
                assert(is_number(t));
                true
            } else {
                proof {
                    assert(ci_eq(t[ks], 'e'));
                    assert(!(forall|j: int| 0 <= j < t.len() ==> !ci_eq(#[trigger] t[j], 'e')));
                    assert forall|k2: int|
                        !(0 <= k2 < t.len() && ci_eq(#[trigger] t[k2], 'e') && (forall|j: int|
                            0 <= j < k2 ==> !ci_eq(#[trigger] t[j], 'e')) && is_mantissa(
                            t.take(k2),
                        ) && is_exp_suffix(t.skip(k2 + 1))) by {
                        if 0 <= k2 < t.len() && ci_eq(t[k2], 'e') && (forall|j: int|
                            0 <= j < k2 ==> !ci_eq(#[trigger] t[j], 'e')) {
                            assert(k2 == ks);
                        }
                    }
                }
                false
            }
        },
    }
}

} // verus!
