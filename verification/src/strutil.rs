//! Character-level string helpers used by the parser and the formatters.

use vstd::prelude::*;

verus! {

/// Character-by-character string equality.
pub fn str_eq(a: &str, b: &str) -> (r: bool)
    ensures
        r == (a@ == b@),
{
    let na = a.unicode_len();
    let nb = b.unicode_len();
    if na != nb {
        assert(a@ != b@);
        return false;
    }
    let mut i: usize = 0;
    while i < na
        invariant
            0 <= i <= na,
            na == a@.len(),
            na == b@.len(),
            forall|j: int| 0 <= j < i ==> a@[j] == b@[j],
        decreases na - i,
    {
        if a.get_char(i) != b.get_char(i) {
            return false;
        }
        i += 1;
    }
    assert(a@ =~= b@);
    true
}

/// String equality on owned strings.
pub fn string_eq(a: &String, b: &String) -> (r: bool)
    ensures
        r == (a@ == b@),
{
    str_eq(a.as_str(), b.as_str())
}

/// The decimal digit characters `'0'` through `'9'`.
pub open spec fn is_digit_char(c: char) -> bool {
    '0' <= c && c <= '9'
}

/// The numeric value of a digit character.
pub open spec fn digit_value(c: char) -> int {
    c as int - '0' as int
}

/// Every character of the sequence is a decimal digit.
pub open spec fn all_digits(s: Seq<char>) -> bool {
    forall|i: int| 0 <= i < s.len() ==> is_digit_char(s[i])
}

/// The unsigned integer denoted by a sequence of decimal digits,
/// most significant digit first.
pub open spec fn digits_to_nat(s: Seq<char>) -> nat
    decreases s.len(),
{
    if s.len() == 0 {
        0
    } else {
        (digits_to_nat(s.drop_last()) * 10 + digit_value(s.last())) as nat
    }
}

/// Whether one exec character is a decimal digit.
pub fn char_is_digit(c: char) -> (r: bool)
    ensures
        r == is_digit_char(c),
{
    let v = c as u32;
    48 <= v && v <= 57
}

/// Whether every character of the string is a decimal digit.
pub fn str_all_digits(s: &str) -> (r: bool)
    ensures
        r == all_digits(s@),
{
    let n = s.unicode_len();
    let mut i: usize = 0;
    while i < n
        invariant
            0 <= i <= n,
            n == s@.len(),
            forall|j: int| 0 <= j < i ==> is_digit_char(s@[j]),
        decreases n - i,
    {
        if !char_is_digit(s.get_char(i)) {
            return false;
        }
        i += 1;
    }
    true
}

/// Position of the first `'.'` in the string, if any.
pub fn find_dot(s: &str) -> (r: Option<usize>)
    ensures
        r is Some ==> r->0 < s@.len() && s@[r->0 as int] == '.'
            && forall|j: int| 0 <= j < r->0 ==> s@[j] != '.',
        r is None ==> forall|j: int| 0 <= j < s@.len() ==> s@[j] != '.',
{
    let n = s.unicode_len();
    let mut i: usize = 0;
    while i < n
        invariant
            0 <= i <= n,
            n == s@.len(),
            forall|j: int| 0 <= j < i ==> s@[j] != '.',
        decreases n - i,
    {
        if s.get_char(i) == '.' {
            return Some(i);
        }
        i += 1;
    }
    None
}

/// A leading sign of a float literal.
pub open spec fn is_sign_char(c: char) -> bool {
    c == '+' || c == '-'
}

/// The mantissa has its one dot at position `k`, digits on both sides,
/// and at least one digit somewhere.
pub open spec fn mantissa_split_at(m: Seq<char>, k: int) -> bool {
    0 <= k < m.len() && m[k] == '.' && m.len() >= 2 && all_digits(m.take(k)) && all_digits(
        m.skip(k + 1),
    )
}

/// A float literal's mantissa: decimal digits with at most one dot among
/// them, and at least one digit.
pub open spec fn is_mantissa_text(m: Seq<char>) -> bool {
    (m.len() >= 1 && all_digits(m)) || (exists|k: int| mantissa_split_at(m, k))
}

/// What follows a float literal's exponent marker: an optional sign, then
/// one or more digits.
pub open spec fn is_exponent_text(x: Seq<char>) -> bool {
    let d = if x.len() >= 1 && is_sign_char(x[0]) {
        x.skip(1)
    } else {
        x
    };
    d.len() >= 1 && all_digits(d)
}

/// The exponent marker of a float literal.
pub open spec fn is_exp_marker(c: char) -> bool {
    c == 'e' || c == 'E'
}

/// An unsigned float literal splits at the exponent marker at position
/// `k`: a mantissa before it, an exponent after it.
pub open spec fn number_split_at(b: Seq<char>, k: int) -> bool {
    0 <= k < b.len() && is_exp_marker(b[k]) && is_mantissa_text(b.take(k)) && is_exponent_text(
        b.skip(k + 1),
    )
}

/// An unsigned float literal: a mantissa, optionally followed by an
/// exponent marker and an exponent.
pub open spec fn is_number_text(b: Seq<char>) -> bool {
    is_mantissa_text(b) || (exists|k: int| number_split_at(b, k))
}

/// The text equals the given all-lowercase ASCII word, ignoring letter
/// case.
pub open spec fn matches_ascii_ci(s: Seq<char>, lower: Seq<char>) -> bool {
    s.len() == lower.len() && forall|i: int|
        0 <= i < s.len() ==> s[i] == lower[i] || s[i] as int == lower[i] as int - 32
}

/// The named non-finite float values, in any letter case.
pub open spec fn is_special_float_text(b: Seq<char>) -> bool {
    matches_ascii_ci(b, "inf"@) || matches_ascii_ci(b, "infinity"@) || matches_ascii_ci(
        b,
        "nan"@,
    )
}

/// The text is a float literal: an optional sign, then either a number
/// (mantissa with optional exponent) or one of the named non-finite
/// values.
pub open spec fn is_float_text(s: Seq<char>) -> bool {
    let body = if s.len() >= 1 && is_sign_char(s[0]) {
        s.skip(1)
    } else {
        s
    };
    is_special_float_text(body) || is_number_text(body)
}

/// A position holding an exponent marker leaves no valid mantissa.
proof fn lemma_marker_blocks_mantissa(b: Seq<char>, k: int)
    requires
        0 <= k < b.len(),
        is_exp_marker(b[k]),
    ensures
        !is_mantissa_text(b),
{
    assert(!is_digit_char(b[k]));
    assert(!all_digits(b));
    assert forall|j: int| !mantissa_split_at(b, j) by {
        if 0 <= j < b.len() && b[j] == '.' {
            if k < j {
                assert(b.take(j)[k] == b[k]);
                assert(!all_digits(b.take(j)));
            } else if k > j {
                assert(b.skip(j + 1)[k - j - 1] == b[k]);
                assert(!all_digits(b.skip(j + 1)));
            }
        }
    }
}

/// The text equals the given all-lowercase ASCII word, ignoring letter
/// case.
pub fn str_matches_ascii_ci(s: &str, lower: &str) -> (r: bool)
    ensures
        r == matches_ascii_ci(s@, lower@),
{
    let n = s.unicode_len();
    if n != lower.unicode_len() {
        return false;
    }
    let mut i: usize = 0;
    while i < n
        invariant
            0 <= i <= n,
            n == s@.len(),
            n == lower@.len(),
            forall|j: int|
                0 <= j < i ==> s@[j] == lower@[j] || s@[j] as int == lower@[j] as int - 32,
        decreases n - i,
    {
        let c = s.get_char(i) as u32;
        let l = lower.get_char(i) as u32;
        if !(c == l || c + 32 == l) {
            return false;
        }
        i += 1;
    }
    true
}

/// Whether the string is a float literal's mantissa.
pub fn str_is_mantissa(s: &str) -> (r: bool)
    ensures
        r == is_mantissa_text(s@),
{
    proof {
        assert(!is_digit_char('.'));
    }
    let n = s.unicode_len();
    if n == 0 {
        proof {
            assert(forall|k: int| !mantissa_split_at(s@, k));
        }
        return false;
    }
    match find_dot(s) {
        None => {
            let r = str_all_digits(s);
            proof {
                assert(forall|k: int| #[trigger] mantissa_split_at(s@, k)
                    ==> s@[k] == '.' && 0 <= k < s@.len());
                assert(forall|k: int| !mantissa_split_at(s@, k));
            }
            r
        },
        Some(k) => {
            proof {
                assert(!all_digits(s@)) by {
                    assert(s@[k as int] == '.');
                }
                // no split can stand strictly after the first dot
                assert(forall|k2: int| k < k2 && #[trigger] mantissa_split_at(s@, k2)
                    ==> false) by {
                    assert(forall|k2: int|
                        k < k2 && #[trigger] mantissa_split_at(s@, k2)
                            ==> s@.take(k2)[k as int] == '.' && is_digit_char(
                            s@.take(k2)[k as int],
                        ));
                }
                // nor strictly before it
                assert(forall|k2: int| k2 < k && #[trigger] mantissa_split_at(s@, k2)
                    ==> false) by {
                    assert(forall|k2: int|
                        0 <= k2 < k ==> s@[k2] != '.');
                }
            }
            if n < 2 {
                proof {
                    assert(forall|k2: int| !mantissa_split_at(s@, k2));
                }
                return false;
            }
            let int_part = s.substring_char(0, k);
            let frac_part = s.substring_char(k + 1, n);
            proof {
                assert(int_part@ =~= s@.take(k as int));
                assert(frac_part@ =~= s@.skip(k + 1));
            }
            let ok = str_all_digits(int_part) && str_all_digits(frac_part);
            proof {
                if ok {
                    assert(mantissa_split_at(s@, k as int));
                } else {
                    assert(forall|k2: int| !mantissa_split_at(s@, k2));
                }
            }
            ok
        },
    }
}

/// Position of the first exponent marker in the string, if any.
fn find_exp_marker(s: &str) -> (r: Option<usize>)
    ensures
        r is Some ==> r->0 < s@.len() && is_exp_marker(s@[r->0 as int])
            && forall|j: int| 0 <= j < r->0 ==> !is_exp_marker(s@[j]),
        r is None ==> forall|j: int| 0 <= j < s@.len() ==> !is_exp_marker(s@[j]),
{
    let n = s.unicode_len();
    let mut i: usize = 0;
    while i < n
        invariant
            0 <= i <= n,
            n == s@.len(),
            forall|j: int| 0 <= j < i ==> !is_exp_marker(s@[j]),
        decreases n - i,
    {
        let c = s.get_char(i);
        if c == 'e' || c == 'E' {
            return Some(i);
        }
        i += 1;
    }
    None
}

/// Whether the string is a float literal's exponent: an optional sign,
/// then one or more digits.
pub fn str_is_exponent(s: &str) -> (r: bool)
    ensures
        r == is_exponent_text(s@),
{
    let n = s.unicode_len();
    let signed = n >= 1 && {
        let c = s.get_char(0);
        c == '+' || c == '-'
    };
    if signed {
        let d = s.substring_char(1, n);
        proof {
            assert(d@ =~= s@.skip(1));
        }
        !d.is_empty() && str_all_digits(d)
    } else {
        n >= 1 && str_all_digits(s)
    }
}

/// Whether the string is an unsigned float literal.
pub fn str_is_number(s: &str) -> (r: bool)
    ensures
        r == is_number_text(s@),
{
    let n = s.unicode_len();
    match find_exp_marker(s) {
        None => {
            let r = str_is_mantissa(s);
            proof {
                assert(forall|k: int| #[trigger] number_split_at(s@, k)
                    ==> is_exp_marker(s@[k]) && 0 <= k < s@.len());
                assert(forall|k: int| !number_split_at(s@, k));
            }
            r
        },
        Some(k) => {
            proof {
                lemma_marker_blocks_mantissa(s@, k as int);
                // no split can stand strictly after the first marker
                assert forall|k2: int| k < k2 && #[trigger] number_split_at(s@, k2)
                    implies false by {
                    assert(s@.take(k2)[k as int] == s@[k as int]);
                    lemma_marker_blocks_mantissa(s@.take(k2), k as int);
                }
                // nor strictly before it
                assert(forall|k2: int| k2 < k && #[trigger] number_split_at(s@, k2)
                    ==> false) by {
                    assert(forall|k2: int|
                        0 <= k2 < k ==> !is_exp_marker(s@[k2]));
                }
            }
            let mantissa = s.substring_char(0, k);
            let exponent = s.substring_char(k + 1, n);
            proof {
                assert(mantissa@ =~= s@.take(k as int));
                assert(exponent@ =~= s@.skip(k + 1));
            }
            let ok = str_is_mantissa(mantissa) && str_is_exponent(exponent);
            proof {
                if ok {
                    assert(number_split_at(s@, k as int));
                } else {
                    assert(forall|k2: int| !number_split_at(s@, k2));
                }
            }
            ok
        },
    }
}

/// Whether the string is a float literal, as the temperature flag takes
/// it: an optional sign, then a number or a named non-finite value.
pub fn str_is_float(s: &str) -> (r: bool)
    ensures
        r == is_float_text(s@),
{
    let n = s.unicode_len();
    let signed = n >= 1 && {
        let c = s.get_char(0);
        c == '+' || c == '-'
    };
    let start: usize = if signed {
        1
    } else {
        0
    };
    let body = s.substring_char(start, n);
    proof {
        if signed {
            assert(body@ =~= s@.skip(1));
        } else {
            assert(body@ =~= s@);
        }
    }
    if str_matches_ascii_ci(body, "inf") || str_matches_ascii_ci(body, "infinity")
        || str_matches_ascii_ci(body, "nan") {
        return true;
    }
    str_is_number(body)
}

/// The text is an optionally negated run of decimal digits.
pub open spec fn is_int_text(s: Seq<char>) -> bool {
    if s.len() >= 1 && s[0] == '-' {
        s.len() >= 2 && all_digits(s.skip(1))
    } else {
        s.len() >= 1 && all_digits(s)
    }
}

/// The integer denoted by an optionally negated run of decimal digits.
pub open spec fn int_text_value(s: Seq<char>) -> int {
    if s.len() >= 1 && s[0] == '-' {
        -(digits_to_nat(s.skip(1)) as int)
    } else {
        digits_to_nat(s) as int
    }
}

/// Parses a signed 32-bit integer from decimal text. Returns the denoted
/// value exactly when the text is well formed and the value fits; any
/// malformed or out-of-range text yields `None`.
pub fn parse_i32(s: &str) -> (r: Option<i32>)
    ensures
        r is Some <==> is_int_text(s@) && i32::MIN <= int_text_value(s@) <= i32::MAX,
        r is Some ==> r->0 == int_text_value(s@),
{
    let n = s.unicode_len();
    let negative = n >= 1 && s.get_char(0) == '-';
    let start: usize = if negative {
        1
    } else {
        0
    };
    if n == start {
        return None;
    }
    let ghost digits_whole: Seq<char> = s@.skip(start as int);
    let mut acc: u64 = 0;
    let mut i: usize = start;
    while i < n
        invariant
            start <= i <= n,
            n == s@.len(),
            negative ==> start == 1 && s@.len() >= 1 && s@[0] == '-',
            !negative ==> start == 0 && (s@.len() >= 1 ==> s@[0] != '-'),
            digits_whole == s@.skip(start as int),
            all_digits(s@.subrange(start as int, i as int)),
            digits_to_nat(s@.subrange(start as int, i as int)) <= 4294967295
                ==> acc == digits_to_nat(s@.subrange(start as int, i as int)),
            digits_to_nat(s@.subrange(start as int, i as int)) > 4294967295 ==> acc
                > 4294967295,
            acc <= 42949672959,
        decreases n - i,
    {
        let c = s.get_char(i);
        if !char_is_digit(c) {
            proof {
                assert(s@.skip(start as int)[i - start] == c);
                assert(!all_digits(s@.skip(start as int)));
                if negative {
                    assert(s@.skip(1) =~= s@.skip(start as int));
                } else {
                    assert(s@ =~= s@.skip(start as int));
                }
                assert(!is_int_text(s@));
            }
            return None;
        }
        let d: u64 = (c as u32 as u64) - 48;
        let ghost pre = s@.subrange(start as int, i as int);
        let ghost post = s@.subrange(start as int, i + 1 as int);
        proof {
            assert(post.drop_last() =~= pre);
            assert(post.last() == s@[i as int]);
            assert(digits_to_nat(post) == digits_to_nat(pre) * 10 + digit_value(s@[i as int]));
            assert(0 <= digit_value(s@[i as int]) <= 9);
        }
        if acc <= 4294967295 {
            acc = acc * 10 + d;
        }
        i += 1;
    }
    proof {
        assert(s@.subrange(start as int, n as int) =~= digits_whole);
        if negative {
            assert(digits_whole =~= s@.skip(1));
            assert(is_int_text(s@));
            assert(int_text_value(s@) == -(digits_to_nat(digits_whole) as int));
        } else {
            assert(digits_whole =~= s@);
            assert(is_int_text(s@));
            assert(int_text_value(s@) == digits_to_nat(digits_whole) as int);
        }
    }
    if negative {
        if acc <= 2147483648 {
            let v: i64 = -(acc as i64);
            Some(v as i32)
        } else {
            None
        }
    } else {
        if acc <= 2147483647 {
            Some(acc as i32)
        } else {
            None
        }
    }
}

/// Parses a boolean flag value: exactly `true` or `false`.
pub fn parse_bool(s: &str) -> (r: Option<bool>)
    ensures
        s@ == "true"@ ==> r == Some(true),
        s@ != "true"@ && s@ == "false"@ ==> r == Some(false),
        s@ != "true"@ && s@ != "false"@ ==> r is None,
{
    if str_eq(s, "true") {
        Some(true)
    } else if str_eq(s, "false") {
        Some(false)
    } else {
        None
    }
}

} // verus!
