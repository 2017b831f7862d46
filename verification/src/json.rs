//! A small JSON scanner for the fixed response shapes of the API.
//!
//! The spec functions define, character by character, which bodies are
//! accepted and what they denote; the executable functions return exactly
//! what the spec functions describe. Scanning works over a `&str` viewed as
//! its sequence of characters, with an index into that sequence, and the
//! recursive value scanner carries an explicit fuel bound so that arbitrarily
//! deep nesting is cut off rather than recursed into without bound.

use vstd::prelude::*;
use vstd::string::StrSliceExecFns;

verus! {

/// JSON insignificant whitespace.
pub open spec fn spec_is_ws(c: char) -> bool {
    c == ' ' || c == '\n' || c == '\r' || c == '\t'
}

/// A decimal digit.
pub open spec fn spec_is_digit(c: char) -> bool {
    48 <= c as u32 && c as u32 <= 57
}

/// The numeric value of a decimal digit.
pub open spec fn spec_digit_val(c: char) -> int {
    c as u32 - 48
}

/// The first index at or after `i` that does not hold whitespace.
pub open spec fn spec_skip_ws(s: Seq<char>, i: int) -> int
    decreases s.len() - i,
{
    if 0 <= i < s.len() && spec_is_ws(s[i]) {
        spec_skip_ws(s, i + 1)
    } else {
        i
    }
}

/// The first index at or after `i` that does not hold a decimal digit.
pub open spec fn spec_digits_end(s: Seq<char>, i: int) -> int
    decreases s.len() - i,
{
    if 0 <= i < s.len() && spec_is_digit(s[i]) {
        spec_digits_end(s, i + 1)
    } else {
        i
    }
}

/// Reads a run of digits starting at `i`, extending the accumulator `acc` by
/// each digit's value; yields the accumulated value and the index after the
/// run.
pub open spec fn spec_scan_digits(s: Seq<char>, i: int, acc: int) -> (int, int)
    decreases s.len() - i,
{
    if 0 <= i < s.len() && spec_is_digit(s[i]) {
        spec_scan_digits(s, i + 1, acc * 10 + spec_digit_val(s[i]))
    } else {
        (acc, i)
    }
}

/// The accumulated value of a digit run never falls below the accumulator it
/// started from.
pub proof fn lemma_scan_digits_lower(s: Seq<char>, i: int, acc: int)
    requires
        acc >= 0,
    ensures
        spec_scan_digits(s, i, acc).0 >= acc,
    decreases s.len() - i,
{
    if 0 <= i < s.len() && spec_is_digit(s[i]) {
        lemma_scan_digits_lower(s, i + 1, acc * 10 + spec_digit_val(s[i]));
    }
}

/// An unsigned 64-bit JSON number at `i`: a digit run without a superfluous
/// leading zero whose value fits in a `u64`. Yields the value and the index
/// after the digits. Anything else (a sign, a fraction, an exponent, an
/// overflowing value) is not accepted where a `u64` is expected.
pub open spec fn spec_parse_u64(s: Seq<char>, i: int) -> Option<(u64, int)> {
    if !(0 <= i < s.len() && spec_is_digit(s[i])) {
        Option::None
    } else if s[i] == '0' {
        if i + 1 < s.len() && spec_is_digit(s[i + 1]) {
            Option::None
        } else {
            Option::Some((0u64, i + 1))
        }
    } else {
        let (v, end) = spec_scan_digits(s, i, 0);
        if v > u64::MAX {
            Option::None
        } else {
            Option::Some((v as u64, end))
        }
    }
}

/// The value of a four-digit hexadecimal escape quartet starting at `i`,
/// or a negative value if one of the four characters is not a hex digit.
pub open spec fn spec_hex_val(c: char) -> int {
    let u = c as u32;
    if 48 <= u && u <= 57 {
        u - 48
    } else if 65 <= u && u <= 70 {
        u - 55
    } else if 97 <= u && u <= 102 {
        u - 87
    } else {
        -1
    }
}

/// The code point denoted by the four hex digits at `i .. i + 4`, or a
/// negative value if they are not four hex digits (assumes they are in
/// bounds).
pub open spec fn spec_hex4_val(s: Seq<char>, i: int) -> int {
    if spec_hex_val(s[i]) < 0 || spec_hex_val(s[i + 1]) < 0 || spec_hex_val(s[i + 2]) < 0
        || spec_hex_val(s[i + 3]) < 0 {
        -1
    } else {
        spec_hex_val(s[i]) * 4096 + spec_hex_val(s[i + 1]) * 256 + spec_hex_val(s[i + 2]) * 16
            + spec_hex_val(s[i + 3])
    }
}

/// The remainder of a JSON string whose opening quote has been read:
/// everything up to the closing quote, with escape sequences decoded, added
/// onto `acc`. Yields the decoded content and the index after the closing
/// quote. Unescaped control characters, bad escapes, escaped surrogate code
/// points and an unterminated string are not accepted.
pub open spec fn spec_string_rest(s: Seq<char>, i: int, acc: Seq<char>) -> Option<
    (Seq<char>, int),
>
    decreases s.len() - i,
{
    if i < 0 || i >= s.len() {
        Option::None
    } else if s[i] == '"' {
        Option::Some((acc, i + 1))
    } else if s[i] == '\\' {
        if i + 1 >= s.len() {
            Option::None
        } else {
            let c = s[i + 1];
            if c == '"' || c == '\\' || c == '/' {
                spec_string_rest(s, i + 2, acc.push(c))
            } else if c == 'n' {
                spec_string_rest(s, i + 2, acc.push('\n'))
            } else if c == 't' {
                spec_string_rest(s, i + 2, acc.push('\t'))
            } else if c == 'r' {
                spec_string_rest(s, i + 2, acc.push('\r'))
            } else if c == 'b' {
                spec_string_rest(s, i + 2, acc.push('\u{8}'))
            } else if c == 'f' {
                spec_string_rest(s, i + 2, acc.push('\u{c}'))
            } else if c == 'u' {
                if i + 6 > s.len() {
                    Option::None
                } else {
                    let v = spec_hex4_val(s, i + 2);
                    if v < 0 || (0xD800 <= v && v <= 0xDFFF) {
                        Option::None
                    } else {
                        spec_string_rest(s, i + 6, acc.push(v as u32 as char))
                    }
                }
            } else {
                Option::None
            }
        }
    } else if (s[i] as u32) < 32 {
        Option::None
    } else {
        spec_string_rest(s, i + 1, acc.push(s[i]))
    }
}

/// A JSON string at `i`: an opening quote followed by content and a closing
/// quote. Yields the decoded content and the index after the closing quote.
pub open spec fn spec_parse_string(s: Seq<char>, i: int) -> Option<(Seq<char>, int)> {
    if 0 <= i < s.len() && s[i] == '"' {
        spec_string_rest(s, i + 1, Seq::empty())
    } else {
        Option::None
    }
}

/// A JSON number at `i` (optional minus sign, integer part without a
/// superfluous leading zero, optional fraction, optional exponent), read only
/// to be skipped. Yields the index after the number.
pub open spec fn spec_skip_number(s: Seq<char>, i: int) -> Option<int> {
    if i < 0 || i >= s.len() {
        Option::None
    } else {
        let j = if s[i] == '-' {
            i + 1
        } else {
            i
        };
        if !(j < s.len() && spec_is_digit(s[j])) {
            Option::None
        } else {
            let k = if s[j] == '0' {
                j + 1
            } else {
                spec_digits_end(s, j)
            };
            let f = if k < s.len() && s[k] == '.' {
                if k + 1 < s.len() && spec_is_digit(s[k + 1]) {
                    spec_digits_end(s, k + 1)
                } else {
                    -1
                }
            } else {
                k
            };
            if f < 0 {
                Option::None
            } else {
                let g = if f < s.len() && (s[f] == 'e' || s[f] == 'E') {
                    let m = if f + 1 < s.len() && (s[f + 1] == '+' || s[f + 1] == '-') {
                        f + 2
                    } else {
                        f + 1
                    };
                    if m < s.len() && spec_is_digit(s[m]) {
                        spec_digits_end(s, m)
                    } else {
                        -1
                    }
                } else {
                    f
                };
                if g < 0 {
                    Option::None
                } else {
                    Option::Some(g)
                }
            }
        }
    }
}

/// Relies on `char::from_u32` of std: it returns the character with the
/// given code point exactly when the value is a Unicode scalar value (not a
/// surrogate, not above the Unicode range).
#[verifier::external_body]
fn char_from_u32(v: u32) -> (r: Option<char>)
    ensures
        r is Some <==> (v < 0xD800 || (0xE000 <= v && v <= 0x10FFFF)),
        r is Some ==> r.unwrap() as u32 == v,
{
    char::from_u32(v)
}

/// Relies on `String::from_iter` of std: the returned string holds exactly
/// the given characters, in order.
#[verifier::external_body]
pub(crate) fn chars_to_string(v: Vec<char>) -> (r: String)
    ensures
        r@ == v@,
{
    v.into_iter().collect()
}

/// Skips whitespace: the first index at or after `i` without whitespace.
pub(crate) fn skip_ws(s: &str, n: usize, i: usize) -> (r: usize)
    requires
        n == s@.len(),
        i <= n,
    ensures
        r == spec_skip_ws(s@, i as int),
        i <= r <= n,
{
    let mut j = i;
    loop
        invariant
            n == s@.len(),
            i <= j <= n,
            spec_skip_ws(s@, i as int) == spec_skip_ws(s@, j as int),
        decreases n - j,
    {
        if j >= n {
            return j;
        }
        let c = s.get_char(j);
        if !(c == ' ' || c == '\n' || c == '\r' || c == '\t') {
            return j;
        }
        j += 1;
    }
}

/// Reads an unsigned 64-bit JSON number, as [`spec_parse_u64`] describes it.
pub(crate) fn parse_u64(s: &str, n: usize, i: usize) -> (r: Option<(u64, usize)>)
    requires
        n == s@.len(),
        i <= n,
    ensures
        match spec_parse_u64(s@, i as int) {
            Option::None => r is None,
            Option::Some((v, e)) => r is Some && r.unwrap().0 == v && r.unwrap().1 == e && e
                <= n,
        },
{
    if i >= n {
        return Option::None;
    }
    let c0 = s.get_char(i);
    if !(c0 as u32 >= 48 && c0 as u32 <= 57) {
        return Option::None;
    }
    if c0 == '0' {
        if i + 1 < n {
            let c1 = s.get_char(i + 1);
            if c1 as u32 >= 48 && c1 as u32 <= 57 {
                return Option::None;
            }
        }
        return Option::Some((0u64, i + 1));
    }
    let mut j = i;
    let mut acc: u64 = 0;
    loop
        invariant_except_break
            n == s@.len(),
            i < n,
            spec_is_digit(s@[i as int]),
            s@[i as int] != '0',
            i <= j <= n,
            spec_scan_digits(s@, i as int, 0) == spec_scan_digits(s@, j as int, acc as int),
        ensures
            i <= j <= n,
            spec_scan_digits(s@, i as int, 0) == (acc as int, j as int),
        decreases n - j,
    {
        if j >= n {
            break ;
        }
        let c = s.get_char(j);
        if !(c as u32 >= 48 && c as u32 <= 57) {
            break ;
        }
        let d: u64 = (c as u32 - 48) as u64;
        proof {
            assert(spec_is_digit(s@[j as int]));
            assert(spec_scan_digits(s@, j as int, acc as int) == spec_scan_digits(
                s@,
                j as int + 1,
                acc as int * 10 + spec_digit_val(s@[j as int]),
            ));
        }
        let step = acc.checked_mul(10);
        if step.is_none() {
            proof {
                lemma_scan_digits_lower(s@, j as int + 1, acc as int * 10 + spec_digit_val(
                    s@[j as int],
                ));
                assert(spec_scan_digits(s@, i as int, 0).0 > u64::MAX);
            }
            return Option::None;
        }
        let step2 = step.unwrap().checked_add(d);
        if step2.is_none() {
            proof {
                lemma_scan_digits_lower(s@, j as int + 1, acc as int * 10 + spec_digit_val(
                    s@[j as int],
                ));
                assert(spec_scan_digits(s@, i as int, 0).0 > u64::MAX);
            }
            return Option::None;
        }
        acc = step2.unwrap();
        j += 1;
    }
    Option::Some((acc, j))
}

/// Reads a JSON string, as [`spec_parse_string`] describes it, returning its
/// decoded content and the index after the closing quote.
pub(crate) fn parse_string(s: &str, n: usize, i: usize) -> (r: Option<(String, usize)>)
    requires
        n == s@.len(),
        i <= n,
    ensures
        match spec_parse_string(s@, i as int) {
            Option::None => r is None,
            Option::Some((cs, e)) => r is Some && r.unwrap().0@ == cs && r.unwrap().1 == e && e
                <= n,
        },
{
    if i >= n || s.get_char(i) != '"' {
        return Option::None;
    }
    let mut j = i + 1;
    let mut acc: Vec<char> = Vec::new();
    loop
        invariant
            n == s@.len(),
            i + 1 <= j <= n,
            spec_string_rest(s@, j as int, acc@) == spec_parse_string(s@, i as int),
        decreases n - j,
    {
        if j >= n {
            return Option::None;
        }
        let ghost prev_j = j as int;
        let ghost prev_acc = acc@;
        let c = s.get_char(j);
        if c == '"' {
            return Option::Some((chars_to_string(acc), j + 1));
        }
        if c == '\\' {
            if n - j < 2 {
                return Option::None;
            }
            let e = s.get_char(j + 1);
            if e == '"' || e == '\\' || e == '/' {
                acc.push(e);
                j += 2;
                proof {
                    assert(spec_string_rest(s@, prev_j, prev_acc) == spec_string_rest(
                        s@,
                        j as int,
                        acc@,
                    ));
                }
            } else if e == 'n' {
                acc.push('\n');
                j += 2;
                proof {
                    assert(spec_string_rest(s@, prev_j, prev_acc) == spec_string_rest(
                        s@,
                        j as int,
                        acc@,
                    ));
                }
            } else if e == 't' {
                acc.push('\t');
                j += 2;
                proof {
                    assert(spec_string_rest(s@, prev_j, prev_acc) == spec_string_rest(
                        s@,
                        j as int,
                        acc@,
                    ));
                }
            } else if e == 'r' {
                acc.push('\r');
                j += 2;
                proof {
                    assert(spec_string_rest(s@, prev_j, prev_acc) == spec_string_rest(
                        s@,
                        j as int,
                        acc@,
                    ));
                }
            } else if e == 'b' {
                acc.push('\u{8}');
                j += 2;
                proof {
                    assert(spec_string_rest(s@, prev_j, prev_acc) == spec_string_rest(
                        s@,
                        j as int,
                        acc@,
                    ));
                }
            } else if e == 'f' {
                acc.push('\u{c}');
                j += 2;
                proof {
                    assert(spec_string_rest(s@, prev_j, prev_acc) == spec_string_rest(
                        s@,
                        j as int,
                        acc@,
                    ));
                }
            } else if e == 'u' {
                if n - j < 6 {
                    return Option::None;
                }
                let h1 = hex_val(s.get_char(j + 2));
                let h2 = hex_val(s.get_char(j + 3));
                let h3 = hex_val(s.get_char(j + 4));
                let h4 = hex_val(s.get_char(j + 5));
                if h1 < 0 || h2 < 0 || h3 < 0 || h4 < 0 {
                    return Option::None;
                }
                let v: u32 = (h1 * 4096 + h2 * 256 + h3 * 16 + h4) as u32;
                if 0xD800 <= v && v <= 0xDFFF {
                    return Option::None;
                }
                proof {
                    assert(v as int == spec_hex4_val(s@, prev_j + 2));
                }
                let cu = char_from_u32(v);
                let cv = cu.unwrap();
                proof {
                    vstd::utf8::char_u32_cast(cv, v);
                    assert(cv == (v as char));
                }
                acc.push(cv);
                j += 6;
                proof {
                    assert(spec_string_rest(s@, prev_j, prev_acc) == spec_string_rest(
                        s@,
                        j as int,
                        acc@,
                    ));
                }
            } else {
                return Option::None;
            }
        } else if (c as u32) < 32 {
            return Option::None;
        } else {
            acc.push(c);
            j += 1;
            proof {
                assert(spec_string_rest(s@, prev_j, prev_acc) == spec_string_rest(
                    s@,
                    j as int,
                    acc@,
                ));
            }
        }
    }
}

/// The value of one hexadecimal digit, or a negative value for any other
/// character.
fn hex_val(c: char) -> (r: i32)
    ensures
        r as int == spec_hex_val(c),
        r < 16,
{
    let u = c as u32;
    if 48 <= u && u <= 57 {
        (u - 48) as i32
    } else if 65 <= u && u <= 70 {
        (u - 55) as i32
    } else if 97 <= u && u <= 102 {
        (u - 87) as i32
    } else {
        -1
    }
}

/// Skips a JSON number, as [`spec_skip_number`] describes it.
pub(crate) fn skip_number(s: &str, n: usize, i: usize) -> (r: Option<usize>)
    requires
        n == s@.len(),
        i <= n,
    ensures
        match spec_skip_number(s@, i as int) {
            Option::None => r is None,
            Option::Some(e) => r is Some && r.unwrap() == e && e <= n,
        },
{
    if i >= n {
        return Option::None;
    }
    let j = if s.get_char(i) == '-' {
        i + 1
    } else {
        i
    };
    if !(j < n && is_digit(s.get_char(j))) {
        return Option::None;
    }
    let k = if s.get_char(j) == '0' {
        j + 1
    } else {
        digits_end(s, n, j)
    };
    let f: usize;
    if k < n && s.get_char(k) == '.' {
        if k + 1 < n && is_digit(s.get_char(k + 1)) {
            f = digits_end(s, n, k + 1);
        } else {
            return Option::None;
        }
    } else {
        f = k;
    }
    if f < n && (s.get_char(f) == 'e' || s.get_char(f) == 'E') {
        let m = if f + 1 < n && (s.get_char(f + 1) == '+' || s.get_char(f + 1) == '-') {
            f + 2
        } else {
            f + 1
        };
        if m < n && is_digit(s.get_char(m)) {
            Option::Some(digits_end(s, n, m))
        } else {
            Option::None
        }
    } else {
        Option::Some(f)
    }
}

/// Whether the character is a decimal digit.
fn is_digit(c: char) -> (r: bool)
    ensures
        r == spec_is_digit(c),
{
    c as u32 >= 48 && c as u32 <= 57
}

/// The first index at or after `i` without a decimal digit.
fn digits_end(s: &str, n: usize, i: usize) -> (r: usize)
    requires
        n == s@.len(),
        i <= n,
    ensures
        r == spec_digits_end(s@, i as int),
        i <= r <= n,
{
    let mut j = i;
    while j < n && is_digit(s.get_char(j))
        invariant
            n == s@.len(),
            i <= j <= n,
            spec_digits_end(s@, i as int) == spec_digits_end(s@, j as int),
        decreases n - j,
    {
        j += 1;
    }
    j
}

} // verus!

verus! {

/// Any JSON value at `i`, read only to be skipped (an unknown object member).
/// Yields the index after the value. `fuel` bounds the number of scanning
/// steps; a value too deeply nested or too long for the given fuel is not
/// accepted.
pub open spec fn spec_skip_value(s: Seq<char>, i: int, fuel: nat) -> Option<int>
    decreases fuel,
{
    if fuel == 0 {
        Option::None
    } else if i < 0 || i >= s.len() {
        Option::None
    } else {
        let c = s[i];
        if c == '"' {
            match spec_parse_string(s, i) {
                Option::None => Option::None,
                Option::Some((cs, e)) => Option::Some(e),
            }
        } else if c == 't' {
            if i + 4 <= s.len() && s[i + 1] == 'r' && s[i + 2] == 'u' && s[i + 3] == 'e' {
                Option::Some(i + 4)
            } else {
                Option::None
            }
        } else if c == 'f' {
            if i + 5 <= s.len() && s[i + 1] == 'a' && s[i + 2] == 'l' && s[i + 3] == 's' && s[i
                + 4] == 'e' {
                Option::Some(i + 5)
            } else {
                Option::None
            }
        } else if c == 'n' {
            if i + 4 <= s.len() && s[i + 1] == 'u' && s[i + 2] == 'l' && s[i + 3] == 'l' {
                Option::Some(i + 4)
            } else {
                Option::None
            }
        } else if c == '[' {
            spec_skip_array_items(s, spec_skip_ws(s, i + 1), (fuel - 1) as nat, true)
        } else if c == '{' {
            spec_skip_object_items(s, spec_skip_ws(s, i + 1), (fuel - 1) as nat, true)
        } else if c == '-' || spec_is_digit(c) {
            spec_skip_number(s, i)
        } else {
            Option::None
        }
    }
}

/// The items of an array being skipped, starting at the first non-whitespace
/// index after `[` (when `first`) or after a comma. Yields the index after
/// the closing `]`.
pub open spec fn spec_skip_array_items(s: Seq<char>, i: int, fuel: nat, first: bool) -> Option<
    int,
>
    decreases fuel,
{
    if fuel == 0 {
        Option::None
    } else if first && 0 <= i < s.len() && s[i] == ']' {
        Option::Some(i + 1)
    } else {
        match spec_skip_value(s, i, (fuel - 1) as nat) {
            Option::None => Option::None,
            Option::Some(e) => {
                let w = spec_skip_ws(s, e);
                if 0 <= w < s.len() && s[w] == ',' {
                    spec_skip_array_items(s, spec_skip_ws(s, w + 1), (fuel - 1) as nat, false)
                } else if 0 <= w < s.len() && s[w] == ']' {
                    Option::Some(w + 1)
                } else {
                    Option::None
                }
            },
        }
    }
}

/// The members of an object being skipped, starting at the first
/// non-whitespace index after `{` (when `first`) or after a comma. Yields the
/// index after the closing `}`.
pub open spec fn spec_skip_object_items(s: Seq<char>, i: int, fuel: nat, first: bool) -> Option<
    int,
>
    decreases fuel,
{
    if fuel == 0 {
        Option::None
    } else if first && 0 <= i < s.len() && s[i] == '}' {
        Option::Some(i + 1)
    } else {
        match spec_parse_string(s, i) {
            Option::None => Option::None,
            Option::Some((key, j)) => {
                let k = spec_skip_ws(s, j);
                if !(0 <= k < s.len() && s[k] == ':') {
                    Option::None
                } else {
                    match spec_skip_value(s, spec_skip_ws(s, k + 1), (fuel - 1) as nat) {
                        Option::None => Option::None,
                        Option::Some(e) => {
                            let w = spec_skip_ws(s, e);
                            if 0 <= w < s.len() && s[w] == ',' {
                                spec_skip_object_items(
                                    s,
                                    spec_skip_ws(s, w + 1),
                                    (fuel - 1) as nat,
                                    false,
                                )
                            } else if 0 <= w < s.len() && s[w] == '}' {
                                Option::Some(w + 1)
                            } else {
                                Option::None
                            }
                        },
                    }
                }
            },
        }
    }
}

/// Skips any JSON value, as [`spec_skip_value`] describes it.
pub(crate) fn skip_value(s: &str, n: usize, i: usize, fuel: usize) -> (r: Option<usize>)
    requires
        n == s@.len(),
        i <= n,
    ensures
        match spec_skip_value(s@, i as int, fuel as nat) {
            Option::None => r is None,
            Option::Some(e) => r is Some && r.unwrap() == e && e <= n,
        },
    decreases fuel,
{
    if fuel == 0 {
        return Option::None;
    }
    if i >= n {
        return Option::None;
    }
    let c = s.get_char(i);
    if c == '"' {
        match parse_string(s, n, i) {
            Option::None => Option::None,
            Option::Some(p) => Option::Some(p.1),
        }
    } else if c == 't' {
        if n - i >= 4 && s.get_char(i + 1) == 'r' && s.get_char(i + 2) == 'u' && s.get_char(i + 3)
            == 'e' {
            Option::Some(i + 4)
        } else {
            Option::None
        }
    } else if c == 'f' {
        if n - i >= 5 && s.get_char(i + 1) == 'a' && s.get_char(i + 2) == 'l' && s.get_char(i + 3)
            == 's' && s.get_char(i + 4) == 'e' {
            Option::Some(i + 5)
        } else {
            Option::None
        }
    } else if c == 'n' {
        if n - i >= 4 && s.get_char(i + 1) == 'u' && s.get_char(i + 2) == 'l' && s.get_char(i + 3)
            == 'l' {
            Option::Some(i + 4)
        } else {
            Option::None
        }
    } else if c == '[' {
        let j = skip_ws(s, n, i + 1);
        skip_array_items(s, n, j, fuel - 1, true)
    } else if c == '{' {
        let j = skip_ws(s, n, i + 1);
        skip_object_items(s, n, j, fuel - 1, true)
    } else if c == '-' || is_digit(c) {
        skip_number(s, n, i)
    } else {
        Option::None
    }
}

/// Skips the items of an array, as [`spec_skip_array_items`] describes them.
pub(crate) fn skip_array_items(s: &str, n: usize, i: usize, fuel: usize, first: bool) -> (r:
    Option<usize>)
    requires
        n == s@.len(),
        i <= n,
    ensures
        match spec_skip_array_items(s@, i as int, fuel as nat, first) {
            Option::None => r is None,
            Option::Some(e) => r is Some && r.unwrap() == e && e <= n,
        },
    decreases fuel,
{
    let mut j = i;
    let mut f = fuel;
    let mut fst = first;
    loop
        invariant
            n == s@.len(),
            j <= n,
            f <= fuel,
            spec_skip_array_items(s@, i as int, fuel as nat, first) == spec_skip_array_items(
                s@,
                j as int,
                f as nat,
                fst,
            ),
        decreases f,
    {
        if f == 0 {
            return Option::None;
        }
        if fst && j < n && s.get_char(j) == ']' {
            return Option::Some(j + 1);
        }
        match skip_value(s, n, j, f - 1) {
            Option::None => {
                return Option::None;
            },
            Option::Some(e) => {
                let w = skip_ws(s, n, e);
                if w < n && s.get_char(w) == ',' {
                    let j2 = skip_ws(s, n, w + 1);
                    j = j2;
                    f = f - 1;
                    fst = false;
                } else if w < n && s.get_char(w) == ']' {
                    return Option::Some(w + 1);
                } else {
                    return Option::None;
                }
            },
        }
    }
}

/// Skips the members of an object, as [`spec_skip_object_items`] describes
/// them.
pub(crate) fn skip_object_items(s: &str, n: usize, i: usize, fuel: usize, first: bool) -> (r:
    Option<usize>)
    requires
        n == s@.len(),
        i <= n,
    ensures
        match spec_skip_object_items(s@, i as int, fuel as nat, first) {
            Option::None => r is None,
            Option::Some(e) => r is Some && r.unwrap() == e && e <= n,
        },
    decreases fuel,
{
    let mut j = i;
    let mut f = fuel;
    let mut fst = first;
    loop
        invariant
            n == s@.len(),
            j <= n,
            f <= fuel,
            spec_skip_object_items(s@, i as int, fuel as nat, first) == spec_skip_object_items(
                s@,
                j as int,
                f as nat,
                fst,
            ),
        decreases f,
    {
        if f == 0 {
            return Option::None;
        }
        if fst && j < n && s.get_char(j) == '}' {
            return Option::Some(j + 1);
        }
        match parse_string(s, n, j) {
            Option::None => {
                return Option::None;
            },
            Option::Some(key) => {
                let k = skip_ws(s, n, key.1);
                if !(k < n && s.get_char(k) == ':') {
                    return Option::None;
                }
                let v = skip_ws(s, n, k + 1);
                match skip_value(s, n, v, f - 1) {
                    Option::None => {
                        return Option::None;
                    },
                    Option::Some(e) => {
                        let w = skip_ws(s, n, e);
                        if w < n && s.get_char(w) == ',' {
                            let j2 = skip_ws(s, n, w + 1);
                            j = j2;
                            f = f - 1;
                            fst = false;
                        } else if w < n && s.get_char(w) == '}' {
                            return Option::Some(w + 1);
                        } else {
                            return Option::None;
                        }
                    },
                }
            },
        }
    }
}

} // verus!
