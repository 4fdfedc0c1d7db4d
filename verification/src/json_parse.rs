//! The JSON parser: a recursive-descent reader of the textual form, specified
//! exactly by spec-level functions over character sequences.
//!
//! The grammar accepted is JSON restricted to integer numbers: a fractional
//! or exponent part stops the number and therefore fails the surrounding
//! document, as does a number outside the `u64`/`i64` ranges.  Parse failures
//! carry no position; the mapper reports the file that failed instead.

use vstd::prelude::*;

use crate::json::{JsonValue, SpecJson, view_fields, view_items, lemma_view_items_push,
    lemma_view_fields_push, chars_of, string_from_chars};

verus! {

broadcast use vstd::std_specs::vec::group_vec_axioms, vstd::seq::group_seq_axioms;

/// JSON whitespace.
pub open spec fn is_ws(c: char) -> bool {
    c == ' ' || c == '\t' || c == '\n' || c == '\r'
}

/// A decimal digit.
pub open spec fn is_digit(c: char) -> bool {
    48 <= (c as u32) && (c as u32) <= 57
}

/// The value of a decimal digit.
pub open spec fn digit_val(c: char) -> int {
    (c as u32) - 48
}

/// A hexadecimal digit, either case.
pub open spec fn is_hex(c: char) -> bool {
    is_digit(c) || (97 <= (c as u32) && (c as u32) <= 102) || (65 <= (c as u32) && (c as u32)
        <= 70)
}

/// The value of a hexadecimal digit.
pub open spec fn hex_val(c: char) -> int {
    if is_digit(c) {
        digit_val(c)
    } else if 97 <= (c as u32) {
        (c as u32) - 87
    } else {
        (c as u32) - 55
    }
}

/// The first index at or after `i` holding no whitespace.
pub open spec fn sp_ws(s: Seq<char>, i: int) -> int
    decreases s.len() - i,
{
    if 0 <= i && i < s.len() && is_ws(s[i]) {
        sp_ws(s, i + 1)
    } else {
        i
    }
}

/// Reads a run of decimal digits into an accumulator; fails on a value that
/// does not fit in a `u64`.
pub open spec fn sp_digits(s: Seq<char>, i: int, acc: nat) -> Option<(nat, int)>
    decreases s.len() - i,
{
    if 0 <= i && i < s.len() && is_digit(s[i]) {
        let a2 = acc * 10 + digit_val(s[i]);
        if a2 > 0xffff_ffff_ffff_ffff {
            None
        } else {
            sp_digits(s, i + 1, a2 as nat)
        }
    } else {
        Some((acc, i))
    }
}

/// A digit run ends at or after its start, within the sequence.
pub proof fn lemma_sp_digits_bounds(s: Seq<char>, i: int, acc: nat)
    requires
        0 <= i <= s.len(),
    ensures
        sp_digits(s, i, acc) matches Some(r) ==> i <= r.1 <= s.len(),
    decreases s.len() - i,
{
    if i < s.len() && is_digit(s[i]) {
        let a2 = acc * 10 + digit_val(s[i]);
        if a2 <= 0xffff_ffff_ffff_ffff {
            lemma_sp_digits_bounds(s, i + 1, a2 as nat);
        }
    }
}

/// Reads a complete digit run starting at `i`: at least one digit, no
/// superfluous leading zero, value within `u64`.
pub open spec fn sp_digits_checked(s: Seq<char>, i: int) -> Option<(nat, int)> {
    if !(0 <= i && i < s.len() && is_digit(s[i])) {
        None
    } else {
        match sp_digits(s, i, 0) {
            None => None,
            Some((v, end)) => if s[i] == '0' && end > i + 1 {
                None
            } else {
                Some((v, end))
            },
        }
    }
}

/// Reads an integer number, optionally signed.  A negative value must fit in
/// an `i64`, a non-negative one in a `u64`.
pub open spec fn sp_number(s: Seq<char>, i: int) -> Option<(SpecJson, int)> {
    if 0 <= i && i < s.len() && s[i] == '-' {
        match sp_digits_checked(s, i + 1) {
            None => None,
            Some((v, end)) => if v > 0x8000_0000_0000_0000 {
                None
            } else {
                Some((SpecJson::Int(-(v as int)), end))
            },
        }
    } else {
        match sp_digits_checked(s, i) {
            None => None,
            Some((v, end)) => Some((SpecJson::Int(v as int), end)),
        }
    }
}

/// Reads four hexadecimal digits starting at `i`.
pub open spec fn sp_hex4(s: Seq<char>, i: int) -> Option<nat> {
    if 0 <= i && i + 4 <= s.len() && is_hex(s[i]) && is_hex(s[i + 1]) && is_hex(s[i + 2])
        && is_hex(s[i + 3]) {
        Some(
            (hex_val(s[i]) * 4096 + hex_val(s[i + 1]) * 256 + hex_val(s[i + 2]) * 16 + hex_val(
                s[i + 3],
            )) as nat,
        )
    } else {
        None
    }
}

/// Reads the body of a string literal after its opening quote, unescaping as
/// it goes; `i` is inside the body, `acc` what was read so far.  Unpaired
/// surrogate escapes and raw control characters fail.
pub open spec fn sp_string(s: Seq<char>, i: int, acc: Seq<char>) -> Option<(Seq<char>, int)>
    decreases s.len() - i,
{
    if !(0 <= i && i < s.len()) {
        None
    } else {
        let c = s[i];
        if c == '"' {
            Some((acc, i + 1))
        } else if c == '\\' {
            if i + 1 >= s.len() {
                None
            } else {
                let e = s[i + 1];
                if e == '"' {
                    sp_string(s, i + 2, acc.push('"'))
                } else if e == '\\' {
                    sp_string(s, i + 2, acc.push('\\'))
                } else if e == '/' {
                    sp_string(s, i + 2, acc.push('/'))
                } else if e == 'b' {
                    sp_string(s, i + 2, acc.push('\u{8}'))
                } else if e == 'f' {
                    sp_string(s, i + 2, acc.push('\u{c}'))
                } else if e == 'n' {
                    sp_string(s, i + 2, acc.push('\n'))
                } else if e == 'r' {
                    sp_string(s, i + 2, acc.push('\r'))
                } else if e == 't' {
                    sp_string(s, i + 2, acc.push('\t'))
                } else if e == 'u' {
                    match sp_hex4(s, i + 2) {
                        None => None,
                        Some(h) => if 0xD800 <= h && h < 0xDC00 {
                            if i + 8 <= s.len() && s[i + 6] == '\\' && s[i + 7] == 'u' {
                                match sp_hex4(s, i + 8) {
                                    None => None,
                                    Some(l) => if 0xDC00 <= l && l < 0xE000 {
                                        let scalar = 0x10000 + (h - 0xD800) * 1024 + (l - 0xDC00);
                                        sp_string(s, i + 12, acc.push((scalar as u32) as char))
                                    } else {
                                        None
                                    },
                                }
                            } else {
                                None
                            }
                        } else if 0xDC00 <= h && h < 0xE000 {
                            None
                        } else {
                            sp_string(s, i + 6, acc.push((h as u32) as char))
                        },
                    }
                } else {
                    None
                }
            }
        } else if (c as u32) < 32 {
            None
        } else {
            sp_string(s, i + 1, acc.push(c))
        }
    }
}

/// Reads one JSON value starting at `i`, leading whitespace allowed.  The
/// fuel bounds the recursion; it never runs out when it exceeds the number of
/// characters left.
pub open spec fn sp_value(s: Seq<char>, i: int, fuel: nat) -> Option<(SpecJson, int)>
    decreases fuel, 0int,
{
    if fuel == 0 {
        None
    } else {
        let j = sp_ws(s, i);
        if !(j < s.len()) {
            None
        } else {
            let c = s[j];
            if c == 'n' {
                if j + 4 <= s.len() && s[j + 1] == 'u' && s[j + 2] == 'l' && s[j + 3] == 'l' {
                    Some((SpecJson::Null, j + 4))
                } else {
                    None
                }
            } else if c == 't' {
                if j + 4 <= s.len() && s[j + 1] == 'r' && s[j + 2] == 'u' && s[j + 3] == 'e' {
                    Some((SpecJson::Bool(true), j + 4))
                } else {
                    None
                }
            } else if c == 'f' {
                if j + 5 <= s.len() && s[j + 1] == 'a' && s[j + 2] == 'l' && s[j + 3] == 's' && s[j
                    + 4] == 'e' {
                    Some((SpecJson::Bool(false), j + 5))
                } else {
                    None
                }
            } else if c == '"' {
                match sp_string(s, j + 1, Seq::empty()) {
                    None => None,
                    Some((body, end)) => Some((SpecJson::Str(body), end)),
                }
            } else if c == '[' {
                let k = sp_ws(s, j + 1);
                if k < s.len() && s[k] == ']' {
                    Some((SpecJson::Arr(Seq::empty()), k + 1))
                } else {
                    sp_elems(s, j + 1, Seq::empty(), (fuel - 1) as nat)
                }
            } else if c == '{' {
                let k = sp_ws(s, j + 1);
                if k < s.len() && s[k] == '}' {
                    Some((SpecJson::Obj(Seq::empty()), k + 1))
                } else {
                    sp_members(s, j + 1, Seq::empty(), (fuel - 1) as nat)
                }
            } else {
                sp_number(s, j)
            }
        }
    }
}

/// Reads the remaining elements of a non-empty array, `acc` holding those
/// already read.
pub open spec fn sp_elems(s: Seq<char>, i: int, acc: Seq<SpecJson>, fuel: nat) -> Option<
    (SpecJson, int),
>
    decreases fuel, 1int,
{
    if fuel == 0 {
        None
    } else {
        match sp_value(s, i, fuel) {
            None => None,
            Some((v, j)) => {
                let k = sp_ws(s, j);
                if !(k < s.len()) {
                    None
                } else if s[k] == ',' {
                    sp_elems(s, k + 1, acc.push(v), (fuel - 1) as nat)
                } else if s[k] == ']' {
                    Some((SpecJson::Arr(acc.push(v)), k + 1))
                } else {
                    None
                }
            },
        }
    }
}

/// Reads the remaining members of a non-empty object, `acc` holding those
/// already read.
pub open spec fn sp_members(
    s: Seq<char>,
    i: int,
    acc: Seq<(Seq<char>, SpecJson)>,
    fuel: nat,
) -> Option<(SpecJson, int)>
    decreases fuel, 1int,
{
    if fuel == 0 {
        None
    } else {
        let j = sp_ws(s, i);
        if !(j < s.len() && s[j] == '"') {
            None
        } else {
            match sp_string(s, j + 1, Seq::empty()) {
                None => None,
                Some((key, e)) => {
                    let k = sp_ws(s, e);
                    if !(k < s.len() && s[k] == ':') {
                        None
                    } else {
                        match sp_value(s, k + 1, fuel) {
                            None => None,
                            Some((v, m)) => {
                                let p = sp_ws(s, m);
                                if !(p < s.len()) {
                                    None
                                } else if s[p] == ',' {
                                    sp_members(s, p + 1, acc.push((key, v)), (fuel - 1) as nat)
                                } else if s[p] == '}' {
                                    Some((SpecJson::Obj(acc.push((key, v))), p + 1))
                                } else {
                                    None
                                }
                            },
                        }
                    }
                }
            }
        }
    }
}

/// Reads a whole document: one value, with nothing but whitespace around it.
pub open spec fn sp_json(s: Seq<char>) -> Option<SpecJson> {
    match sp_value(s, 0, s.len() + 1) {
        None => None,
        Some((v, j)) => if sp_ws(s, j) == s.len() {
            Some(v)
        } else {
            None
        },
    }
}

/// Whether a character is JSON whitespace.
fn ws_char(c: char) -> (r: bool)
    ensures
        r == is_ws(c),
{
    c == ' ' || c == '\t' || c == '\n' || c == '\r'
}

/// Whether a character is a decimal digit.
fn digit_char(c: char) -> (r: bool)
    ensures
        r == is_digit(c),
{
    let u = c as u32;
    48 <= u && u <= 57
}

/// Whether a character is a hexadecimal digit.
fn hex_char(c: char) -> (r: bool)
    ensures
        r == is_hex(c),
{
    let u = c as u32;
    (48 <= u && u <= 57) || (97 <= u && u <= 102) || (65 <= u && u <= 70)
}

/// Relies on `char::from_u32`: `Some` exactly on the Unicode scalar values,
/// and the returned character casts back to the given scalar.
#[verifier::external_body]
fn char_from_u32(u: u32) -> (r: Option<char>)
    ensures
        r is Some <==> (u < 0xD800 || (0xE000 <= u && u < 0x110000)),
        r matches Some(c) ==> c as u32 == u,
{
    char::from_u32(u)
}

/// Skips whitespace.
fn skip_ws(cs: &Vec<char>, i: usize) -> (r: usize)
    requires
        i <= cs@.len(),
    ensures
        r as int == sp_ws(cs@, i as int),
        i <= r <= cs@.len(),
{
    let mut r = i;
    while r < cs.len() && ws_char(cs[r])
        invariant
            i <= r <= cs@.len(),
            sp_ws(cs@, r as int) == sp_ws(cs@, i as int),
        decreases cs@.len() - r,
    {
        r = r + 1;
    }
    r
}

/// Reads a digit run into a `u64`.
fn parse_digits(cs: &Vec<char>, i: usize) -> (r: Option<(u64, usize)>)
    requires
        i <= cs@.len(),
    ensures
        match r {
            Some((v, end)) => sp_digits(cs@, i as int, 0) == Some((v as nat, end as int)) && i
                <= end <= cs@.len(),
            None => sp_digits(cs@, i as int, 0) is None,
        },
{
    let mut acc: u64 = 0;
    let mut p = i;
    loop
        invariant
            i <= p <= cs@.len(),
            sp_digits(cs@, i as int, 0) == sp_digits(cs@, p as int, acc as nat),
        decreases cs@.len() - p,
    {
        if p < cs.len() && digit_char(cs[p]) {
            let d = (cs[p] as u32) as u64 - 48;
            if acc > (0xffff_ffff_ffff_ffffu64 - d) / 10 {
                proof {
                    assert((acc as nat) * 10 + digit_val(cs@[p as int])
                        > 0xffff_ffff_ffff_ffff) by (nonlinear_arith)
                        requires
                            acc > (0xffff_ffff_ffff_ffffu64 - d) / 10,
                            d == digit_val(cs@[p as int]),
                            d <= 9,
                    ;
                }
                return None;
            }
            proof {
                assert((acc as nat) * 10 + digit_val(cs@[p as int])
                    <= 0xffff_ffff_ffff_ffff) by (nonlinear_arith)
                    requires
                        acc <= (0xffff_ffff_ffff_ffffu64 - d) / 10,
                        d == digit_val(cs@[p as int]),
                        0 <= d <= 9,
                ;
            }
            acc = acc * 10 + d;
            p = p + 1;
        } else {
            return Some((acc, p));
        }
    }
}

/// Reads a complete number token.
fn parse_number(cs: &Vec<char>, i: usize) -> (r: Option<(JsonValue, usize)>)
    requires
        i <= cs@.len(),
    ensures
        match r {
            Some((v, end)) => sp_number(cs@, i as int) == Some((v@, end as int)) && i < end
                <= cs@.len(),
            None => sp_number(cs@, i as int) is None,
        },
{
    if i < cs.len() && cs[i] == '-' {
        match parse_checked_digits(cs, i + 1) {
            None => None,
            Some((v, end)) => {
                if v > 0x8000_0000_0000_0000u64 {
                    None
                } else if v == 0x8000_0000_0000_0000u64 {
                    Some((JsonValue::Int(i64::MIN), end))
                } else {
                    Some((JsonValue::Int(-(v as i64)), end))
                }
            },
        }
    } else {
        match parse_checked_digits(cs, i) {
            None => None,
            Some((v, end)) => Some((JsonValue::UInt(v), end)),
        }
    }
}

/// Reads a digit run with the leading-zero and first-digit checks.
fn parse_checked_digits(cs: &Vec<char>, i: usize) -> (r: Option<(u64, usize)>)
    requires
        i <= cs@.len(),
    ensures
        match r {
            Some((v, end)) => sp_digits_checked(cs@, i as int) == Some((v as nat, end as int))
                && i < end <= cs@.len(),
            None => sp_digits_checked(cs@, i as int) is None,
        },
{
    if !(i < cs.len() && digit_char(cs[i])) {
        return None;
    }
    match parse_digits(cs, i) {
        None => None,
        Some((v, end)) => {
            proof {
                let d = digit_val(cs@[i as int]);
                assert(sp_digits(cs@, i as int, 0) == sp_digits(cs@, i as int + 1, d as nat));
                lemma_sp_digits_bounds(cs@, i as int + 1, d as nat);
            }
            if cs[i] == '0' && end > i + 1 {
                None
            } else {
                Some((v, end))
            }
        },
    }
}

/// Reads four hexadecimal digits.
fn parse_hex4(cs: &Vec<char>, i: usize) -> (r: Option<u32>)
    requires
        i <= cs@.len(),
    ensures
        match r {
            Some(h) => sp_hex4(cs@, i as int) == Some(h as nat) && h < 0x10000,
            None => sp_hex4(cs@, i as int) is None,
        },
{
    if i < cs.len() && cs.len() - i >= 4 && hex_char(cs[i]) && hex_char(cs[i + 1]) && hex_char(
        cs[i + 2],
    ) && hex_char(cs[i + 3]) {
        let h0 = hex_digit_val(cs[i]);
        let h1 = hex_digit_val(cs[i + 1]);
        let h2 = hex_digit_val(cs[i + 2]);
        let h3 = hex_digit_val(cs[i + 3]);
        Some(h0 * 4096 + h1 * 256 + h2 * 16 + h3)
    } else {
        None
    }
}

/// The value of a hexadecimal digit.
fn hex_digit_val(c: char) -> (r: u32)
    requires
        is_hex(c),
    ensures
        r as int == hex_val(c),
        r < 16,
{
    let u = c as u32;
    if 48 <= u && u <= 57 {
        u - 48
    } else if 97 <= u {
        u - 87
    } else {
        u - 55
    }
}

/// Reads a string body after the opening quote.
fn parse_string(cs: &Vec<char>, i: usize, acc: Vec<char>) -> (r: Option<(Vec<char>, usize)>)
    requires
        i <= cs@.len(),
    ensures
        match r {
            Some(p) => sp_string(cs@, i as int, acc@) == Some((p.0@, p.1 as int)) && i < p.1
                <= cs@.len(),
            None => sp_string(cs@, i as int, acc@) is None,
        },
    decreases cs@.len() - i,
{
    if !(i < cs.len()) {
        return None;
    }
    let c = cs[i];
    if c == '"' {
        Some((acc, i + 1))
    } else if c == '\\' {
        if i + 1 >= cs.len() {
            return None;
        }
        let e = cs[i + 1];
        if e == '"' {
            let mut acc = acc;
            acc.push('"');
            parse_string(cs, i + 2, acc)
        } else if e == '\\' {
            let mut acc = acc;
            acc.push('\\');
            parse_string(cs, i + 2, acc)
        } else if e == '/' {
            let mut acc = acc;
            acc.push('/');
            parse_string(cs, i + 2, acc)
        } else if e == 'b' {
            let mut acc = acc;
            acc.push('\u{8}');
            parse_string(cs, i + 2, acc)
        } else if e == 'f' {
            let mut acc = acc;
            acc.push('\u{c}');
            parse_string(cs, i + 2, acc)
        } else if e == 'n' {
            let mut acc = acc;
            acc.push('\n');
            parse_string(cs, i + 2, acc)
        } else if e == 'r' {
            let mut acc = acc;
            acc.push('\r');
            parse_string(cs, i + 2, acc)
        } else if e == 't' {
            let mut acc = acc;
            acc.push('\t');
            parse_string(cs, i + 2, acc)
        } else if e == 'u' {
            match parse_hex4(cs, i + 2) {
                None => None,
                Some(h) => {
                    if 0xD800 <= h && h < 0xDC00 {
                        if cs.len() - i >= 8 && cs[i + 6] == '\\' && cs[i + 7] == 'u' {
                            match parse_hex4(cs, i + 8) {
                                None => None,
                                Some(l) => {
                                    if 0xDC00 <= l && l < 0xE000 {
                                        let scalar: u32 = 0x10000 + (h - 0xD800) * 1024 + (l
                                            - 0xDC00);
                                        let c2 = match char_from_u32(scalar) {
                                            Some(c2) => c2,
                                            None => {
                                                proof {
                                                    assert(false);
                                                }
                                                ' '
                                            },
                                        };
                                        proof {
                                            vstd::utf8::char_u32_cast(c2, scalar);
                                        }
                                        let mut acc = acc;
                                        acc.push(c2);
                                        parse_string(cs, i + 12, acc)
                                    } else {
                                        None
                                    }
                                },
                            }
                        } else {
                            None
                        }
                    } else if 0xDC00 <= h && h < 0xE000 {
                        None
                    } else {
                        let c2 = match char_from_u32(h) {
                            Some(c2) => c2,
                            None => {
                                proof {
                                    assert(false);
                                }
                                ' '
                            },
                        };
                        proof {
                            vstd::utf8::char_u32_cast(c2, h);
                        }
                        let mut acc = acc;
                        acc.push(c2);
                        parse_string(cs, i + 6, acc)
                    }
                },
            }
        } else {
            None
        }
    } else if (c as u32) < 32 {
        None
    } else {
        let mut acc = acc;
        acc.push(c);
        parse_string(cs, i + 1, acc)
    }
}

/// Reads one value, leading whitespace allowed.
fn parse_value(cs: &Vec<char>, i: usize, Ghost(fuel): Ghost<nat>) -> (r: Option<
    (JsonValue, usize),
>)
    requires
        i <= cs@.len(),
        fuel >= cs@.len() - i + 1,
    ensures
        match r {
            Some(p) => sp_value(cs@, i as int, fuel) == Some((p.0@, p.1 as int)) && i < p.1
                <= cs@.len(),
            None => sp_value(cs@, i as int, fuel) is None,
        },
    decreases cs@.len() - i, 0int,
{
    let j = skip_ws(cs, i);
    if !(j < cs.len()) {
        return None;
    }
    let c = cs[j];
    if c == 'n' {
        if cs.len() - j >= 4 && cs[j + 1] == 'u' && cs[j + 2] == 'l' && cs[j + 3] == 'l' {
            Some((JsonValue::Null, j + 4))
        } else {
            None
        }
    } else if c == 't' {
        if cs.len() - j >= 4 && cs[j + 1] == 'r' && cs[j + 2] == 'u' && cs[j + 3] == 'e' {
            Some((JsonValue::Bool(true), j + 4))
        } else {
            None
        }
    } else if c == 'f' {
        if cs.len() - j >= 5 && cs[j + 1] == 'a' && cs[j + 2] == 'l' && cs[j + 3] == 's' && cs[j
            + 4] == 'e' {
            Some((JsonValue::Bool(false), j + 5))
        } else {
            None
        }
    } else if c == '"' {
        match parse_string(cs, j + 1, Vec::new()) {
            None => None,
            Some((body, end)) => Some((JsonValue::Str(string_from_chars(&body)), end)),
        }
    } else if c == '[' {
        let k = skip_ws(cs, j + 1);
        if k < cs.len() && cs[k] == ']' {
            proof {
                assert(view_items(Seq::<JsonValue>::empty()) =~= Seq::<SpecJson>::empty());
            }
            Some((JsonValue::Arr(Vec::new()), k + 1))
        } else {
            parse_elems(cs, j + 1, Vec::new(), Ghost((fuel - 1) as nat))
        }
    } else if c == '{' {
        let k = skip_ws(cs, j + 1);
        if k < cs.len() && cs[k] == '}' {
            proof {
                assert(view_fields(Seq::<(String, JsonValue)>::empty()) =~= Seq::<
                    (Seq<char>, SpecJson),
                >::empty());
            }
            Some((JsonValue::Obj(Vec::new()), k + 1))
        } else {
            parse_members(cs, j + 1, Vec::new(), Ghost((fuel - 1) as nat))
        }
    } else {
        parse_number(cs, j)
    }
}

/// Reads the remaining elements of a non-empty array.
fn parse_elems(cs: &Vec<char>, i: usize, acc: Vec<JsonValue>, Ghost(fuel): Ghost<nat>) -> (r:
    Option<(JsonValue, usize)>)
    requires
        i <= cs@.len(),
        fuel >= cs@.len() - i + 1,
    ensures
        match r {
            Some(p) => sp_elems(cs@, i as int, view_items(acc@), fuel) == Some(
                (p.0@, p.1 as int),
            ) && i < p.1 <= cs@.len(),
            None => sp_elems(cs@, i as int, view_items(acc@), fuel) is None,
        },
    decreases cs@.len() - i, 1int,
{
    match parse_value(cs, i, Ghost(fuel)) {
        None => None,
        Some((v, j)) => {
            let k = skip_ws(cs, j);
            if !(k < cs.len()) {
                None
            } else if cs[k] == ',' {
                proof {
                    lemma_view_items_push(acc@, v);
                }
                let mut acc = acc;
                acc.push(v);
                parse_elems(cs, k + 1, acc, Ghost((fuel - 1) as nat))
            } else if cs[k] == ']' {
                proof {
                    lemma_view_items_push(acc@, v);
                }
                let mut acc = acc;
                acc.push(v);
                Some((JsonValue::Arr(acc), k + 1))
            } else {
                None
            }
        },
    }
}

/// Reads the remaining members of a non-empty object.
fn parse_members(
    cs: &Vec<char>,
    i: usize,
    acc: Vec<(String, JsonValue)>,
    Ghost(fuel): Ghost<nat>,
) -> (r: Option<(JsonValue, usize)>)
    requires
        i <= cs@.len(),
        fuel >= cs@.len() - i + 1,
    ensures
        match r {
            Some(p) => sp_members(cs@, i as int, view_fields(acc@), fuel) == Some(
                (p.0@, p.1 as int),
            ) && i < p.1 <= cs@.len(),
            None => sp_members(cs@, i as int, view_fields(acc@), fuel) is None,
        },
    decreases cs@.len() - i, 1int,
{
    let j = skip_ws(cs, i);
    if !(j < cs.len() && cs[j] == '"') {
        return None;
    }
    match parse_string(cs, j + 1, Vec::new()) {
        None => None,
        Some((key, e)) => {
            let k = skip_ws(cs, e);
            if !(k < cs.len() && cs[k] == ':') {
                None
            } else {
                match parse_value(cs, k + 1, Ghost(fuel)) {
                    None => None,
                    Some((v, m)) => {
                        let p = skip_ws(cs, m);
                        if !(p < cs.len()) {
                            None
                        } else if cs[p] == ',' {
                            let ks = string_from_chars(&key);
                            proof {
                                lemma_view_fields_push(acc@, ks, v);
                            }
                            let mut acc = acc;
                            acc.push((ks, v));
                            parse_members(cs, p + 1, acc, Ghost((fuel - 1) as nat))
                        } else if cs[p] == '}' {
                            let ks = string_from_chars(&key);
                            proof {
                                lemma_view_fields_push(acc@, ks, v);
                            }
                            let mut acc = acc;
                            acc.push((ks, v));
                            Some((JsonValue::Obj(acc), p + 1))
                        } else {
                            None
                        }
                    },
                }
            }
        },
    }
}

/// Parses a whole JSON document from text.
pub fn parse_json(s: &str) -> (r: Option<JsonValue>)
    ensures
        match r {
            Some(v) => sp_json(s@) == Some(v@),
            None => sp_json(s@) is None,
        },
{
    let cs = chars_of(s);
    match parse_value(&cs, 0, Ghost(cs@.len() + 1)) {
        None => None,
        Some((v, j)) => {
            let k = skip_ws(&cs, j);
            if k == cs.len() {
                Some(v)
            } else {
                None
            }
        },
    }
}

} // verus!
