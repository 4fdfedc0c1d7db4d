//! The textual JSON layer: a pretty-printer and a parser for the document
//! model, both specified exactly by spec-level functions over `SpecJson`.
//!
//! Only integer numbers are part of the grammar accepted here, because every
//! numeric field of the archive schema is a fixed-width integer.  Indentation
//! saturates at a nesting depth of 4096 so that the printer is total; no real
//! archive comes anywhere near that depth.

use vstd::prelude::*;

use crate::json::{JsonValue, SpecJson, view_fields, view_items, lemma_view_fields,
    lemma_view_items, chars_of, string_from_chars};

verus! {

broadcast use vstd::std_specs::vec::group_vec_axioms, vstd::seq::group_seq_axioms;

/// Nesting depth beyond which indentation stops growing.
pub const INDENT_CAP: usize = 4096;

/// The character for a single decimal digit.
pub open spec fn spec_digit_char(d: int) -> char {
    ((48 + d) as u8) as char
}

/// The character for a single hexadecimal digit, lower case.
pub open spec fn spec_hex_char(d: int) -> char {
    if d < 10 {
        spec_digit_char(d)
    } else {
        ((87 + d) as u8) as char
    }
}

/// The decimal digits of `n`, most significant first.
pub open spec fn spec_digits(n: nat) -> Seq<char>
    decreases n,
{
    if n < 10 {
        seq![spec_digit_char(n as int)]
    } else {
        spec_digits(n / 10).push(spec_digit_char((n % 10) as int))
    }
}

/// The decimal rendering of an integer, with a leading minus sign when
/// negative.
pub open spec fn spec_int_chars(i: int) -> Seq<char> {
    if i < 0 {
        seq!['-'] + spec_digits((-i) as nat)
    } else {
        spec_digits(i as nat)
    }
}

/// The JSON escape of one string character: quote, backslash and the named
/// control characters get two-character escapes, other control characters a
/// `\u00..` escape, everything else stands for itself.
pub open spec fn spec_esc_char(c: char) -> Seq<char> {
    if c == '"' {
        seq!['\\', '"']
    } else if c == '\\' {
        seq!['\\', '\\']
    } else if c == '\u{8}' {
        seq!['\\', 'b']
    } else if c == '\u{c}' {
        seq!['\\', 'f']
    } else if c == '\n' {
        seq!['\\', 'n']
    } else if c == '\r' {
        seq!['\\', 'r']
    } else if c == '\t' {
        seq!['\\', 't']
    } else if (c as u32) < 32 {
        seq!['\\', 'u', '0', '0', spec_hex_char((c as u32) as int / 16), spec_hex_char(
            (c as u32) as int % 16,
        )]
    } else {
        seq![c]
    }
}

/// The JSON escape of a whole string body.
pub open spec fn spec_esc(s: Seq<char>) -> Seq<char>
    decreases s.len(),
{
    if s.len() == 0 {
        Seq::empty()
    } else {
        spec_esc_char(s[0]) + spec_esc(s.drop_first())
    }
}

/// Two spaces per indentation level.
pub open spec fn spec_indent(n: nat) -> Seq<char>
    decreases n,
{
    if n == 0 {
        Seq::empty()
    } else {
        spec_indent((n - 1) as nat) + seq![' ', ' ']
    }
}

/// Indentation one level deeper, saturating at the cap.
pub open spec fn spec_deeper(n: nat) -> nat {
    if n < 4096 {
        n + 1
    } else {
        n
    }
}

/// The pretty-printed text of a JSON value at indentation level `ind`.
pub open spec fn spec_write(v: SpecJson, ind: nat) -> Seq<char>
    decreases v, 0int,
{
    match v {
        SpecJson::Null => seq!['n', 'u', 'l', 'l'],
        SpecJson::Bool(b) => if b {
            seq!['t', 'r', 'u', 'e']
        } else {
            seq!['f', 'a', 'l', 's', 'e']
        },
        SpecJson::Int(i) => spec_int_chars(i),
        SpecJson::Str(s) => seq!['"'] + spec_esc(s) + seq!['"'],
        SpecJson::Arr(items) => if items.len() == 0 {
            seq!['[', ']']
        } else {
            seq!['['] + spec_write_items(items, spec_deeper(ind), true) + seq!['\n']
                + spec_indent(ind) + seq![']']
        },
        SpecJson::Obj(fields) => if fields.len() == 0 {
            seq!['{', '}']
        } else {
            seq!['{'] + spec_write_fields(fields, spec_deeper(ind), true) + seq!['\n']
                + spec_indent(ind) + seq!['}']
        },
    }
}

/// The array elements of the pretty-printed text, each on its own line.
pub open spec fn spec_write_items(items: Seq<SpecJson>, ind: nat, first: bool) -> Seq<char>
    decreases items, 1int,
{
    if items.len() == 0 {
        Seq::empty()
    } else {
        (if first {
            seq!['\n']
        } else {
            seq![',', '\n']
        }) + spec_indent(ind) + spec_write(items[0], ind) + spec_write_items(
            items.drop_first(),
            ind,
            false,
        )
    }
}

/// The object members of the pretty-printed text, each on its own line.
pub open spec fn spec_write_fields(
    fields: Seq<(Seq<char>, SpecJson)>,
    ind: nat,
    first: bool,
) -> Seq<char>
    decreases fields, 1int,
{
    if fields.len() == 0 {
        Seq::empty()
    } else {
        (if first {
            seq!['\n']
        } else {
            seq![',', '\n']
        }) + spec_indent(ind) + seq!['"'] + spec_esc(fields[0].0) + seq!['"', ':', ' ']
            + spec_write(fields[0].1, ind) + spec_write_fields(fields.drop_first(), ind, false)
    }
}

/// The character for a decimal digit.
fn digit_char(d: u64) -> (c: char)
    requires
        d < 10,
    ensures
        c == spec_digit_char(d as int),
{
    (48 + d as u8) as char
}

/// The character for a hexadecimal digit, lower case.
fn hex_char(d: u32) -> (c: char)
    requires
        d < 16,
    ensures
        c == spec_hex_char(d as int),
{
    if d < 10 {
        (48 + d as u8) as char
    } else {
        (87 + d as u8) as char
    }
}

/// Appends the decimal digits of `n`.
fn push_digits(n: u64, out: &mut Vec<char>)
    ensures
        final(out)@ == old(out)@ + spec_digits(n as nat),
    decreases n,
{
    if n < 10 {
        out.push(digit_char(n));
        proof {
            assert(final(out)@ =~= old(out)@ + spec_digits(n as nat));
        }
    } else {
        push_digits(n / 10, out);
        out.push(digit_char(n % 10));
        proof {
            assert(final(out)@ =~= old(out)@ + spec_digits(n as nat));
        }
    }
}

/// Appends `2 * n` spaces.
fn push_indent(n: usize, out: &mut Vec<char>)
    ensures
        final(out)@ == old(out)@ + spec_indent(n as nat),
{
    let ghost base = out@;
    let mut i: usize = 0;
    while i < n
        invariant
            i <= n,
            out@ == base + spec_indent(i as nat),
        decreases n - i,
    {
        out.push(' ');
        out.push(' ');
        i = i + 1;
        proof {
            assert(out@ =~= base + spec_indent(i as nat));
        }
    }
}

/// Appends the escape of one character.
fn push_esc_char(c: char, out: &mut Vec<char>)
    ensures
        final(out)@ == old(out)@ + spec_esc_char(c),
{
    if c == '"' {
        out.push('\\');
        out.push('"');
    } else if c == '\\' {
        out.push('\\');
        out.push('\\');
    } else if c == '\u{8}' {
        out.push('\\');
        out.push('b');
    } else if c == '\u{c}' {
        out.push('\\');
        out.push('f');
    } else if c == '\n' {
        out.push('\\');
        out.push('n');
    } else if c == '\r' {
        out.push('\\');
        out.push('r');
    } else if c == '\t' {
        out.push('\\');
        out.push('t');
    } else if (c as u32) < 32 {
        let u = c as u32;
        out.push('\\');
        out.push('u');
        out.push('0');
        out.push('0');
        out.push(hex_char(u / 16));
        out.push(hex_char(u % 16));
    } else {
        out.push(c);
    }
    proof {
        assert(final(out)@ =~= old(out)@ + spec_esc_char(c));
    }
}

/// Appends the escape of the characters from `idx` on.
fn push_esc(cs: &Vec<char>, idx: usize, out: &mut Vec<char>)
    requires
        idx <= cs@.len(),
    ensures
        final(out)@ == old(out)@ + spec_esc(cs@.skip(idx as int)),
    decreases cs@.len() - idx,
{
    if idx < cs.len() {
        push_esc_char(cs[idx], out);
        push_esc(cs, idx + 1, out);
        proof {
            assert(cs@.skip(idx as int)[0] == cs@[idx as int]);
            assert(cs@.skip(idx as int).drop_first() =~= cs@.skip(idx as int + 1));
            assert(final(out)@ =~= old(out)@ + spec_esc(cs@.skip(idx as int)));
        }
    } else {
        proof {
            assert(cs@.skip(idx as int) =~= Seq::<char>::empty());
            assert(final(out)@ =~= old(out)@ + spec_esc(cs@.skip(idx as int)));
        }
    }
}

/// Appends the pretty-printed text of `v` at indentation level `ind`.
pub fn write_value(v: &JsonValue, ind: usize, out: &mut Vec<char>)
    ensures
        final(out)@ == old(out)@ + spec_write(v@, ind as nat),
    decreases v, 0int, 0int,
{
    match v {
        JsonValue::Null => {
            out.push('n');
            out.push('u');
            out.push('l');
            out.push('l');
            proof {
                assert(final(out)@ =~= old(out)@ + spec_write(v@, ind as nat));
            }
        },
        JsonValue::Bool(b) => {
            if *b {
                out.push('t');
                out.push('r');
                out.push('u');
                out.push('e');
            } else {
                out.push('f');
                out.push('a');
                out.push('l');
                out.push('s');
                out.push('e');
            }
            proof {
                assert(final(out)@ =~= old(out)@ + spec_write(v@, ind as nat));
            }
        },
        JsonValue::UInt(n) => {
            push_digits(*n, out);
            proof {
                assert(final(out)@ =~= old(out)@ + spec_write(v@, ind as nat));
            }
        },
        JsonValue::Int(n) => {
            if *n < 0 {
                out.push('-');
                let m: u64 = (-(*n as i128)) as u64;
                proof {
                    assert(m as int == -(*n as int));
                }
                push_digits(m, out);
            } else {
                push_digits(*n as u64, out);
            }
            proof {
                assert(final(out)@ =~= old(out)@ + spec_write(v@, ind as nat));
            }
        },
        JsonValue::Str(s) => {
            let cs = chars_of(s.as_str());
            out.push('"');
            push_esc(&cs, 0, out);
            out.push('"');
            proof {
                assert(cs@.skip(0) =~= s@);
                assert(final(out)@ =~= old(out)@ + spec_write(v@, ind as nat));
            }
        },
        JsonValue::Arr(items) => {
            if items.len() == 0 {
                out.push('[');
                out.push(']');
                proof {
                    assert(view_items(items@).len() == 0);
                    assert(final(out)@ =~= old(out)@ + spec_write(v@, ind as nat));
                }
            } else {
                let deeper = if ind < INDENT_CAP {
                    ind + 1
                } else {
                    ind
                };
                out.push('[');
                write_items(items, 0, deeper, true, out);
                out.push('\n');
                push_indent(ind, out);
                out.push(']');
                proof {
                    lemma_view_items(items@);
                    assert(view_items(items@).skip(0) =~= view_items(items@));
                    assert(final(out)@ =~= old(out)@ + spec_write(v@, ind as nat));
                }
            }
        },
        JsonValue::Obj(fields) => {
            if fields.len() == 0 {
                out.push('{');
                out.push('}');
                proof {
                    assert(view_fields(fields@).len() == 0);
                    assert(final(out)@ =~= old(out)@ + spec_write(v@, ind as nat));
                }
            } else {
                let deeper = if ind < INDENT_CAP {
                    ind + 1
                } else {
                    ind
                };
                out.push('{');
                write_fields(fields, 0, deeper, true, out);
                out.push('\n');
                push_indent(ind, out);
                out.push('}');
                proof {
                    lemma_view_fields(fields@);
                    assert(view_fields(fields@).skip(0) =~= view_fields(fields@));
                    assert(final(out)@ =~= old(out)@ + spec_write(v@, ind as nat));
                }
            }
        },
    }
}

/// Appends the pretty-printed elements from `idx` on.
fn write_items(items: &Vec<JsonValue>, idx: usize, ind: usize, first: bool, out: &mut Vec<char>)
    requires
        idx <= items@.len(),
    ensures
        final(out)@ == old(out)@ + spec_write_items(
            view_items(items@).skip(idx as int),
            ind as nat,
            first,
        ),
    decreases items, 1int, items@.len() - idx,
{
    if idx < items.len() {
        if first {
            out.push('\n');
        } else {
            out.push(',');
            out.push('\n');
        }
        push_indent(ind, out);
        write_value(&items[idx], ind, out);
        write_items(items, idx + 1, ind, false, out);
        proof {
            lemma_view_items(items@);
            let tail = view_items(items@).skip(idx as int);
            assert(tail[0] == items@[idx as int]@);
            assert(tail.drop_first() =~= view_items(items@).skip(idx as int + 1));
            assert(final(out)@ =~= old(out)@ + spec_write_items(tail, ind as nat, first));
        }
    } else {
        proof {
            lemma_view_items(items@);
            assert(view_items(items@).skip(idx as int) =~= Seq::<SpecJson>::empty());
        }
    }
}

/// Appends the pretty-printed members from `idx` on.
#[verifier::rlimit(60)]
fn write_fields(
    fields: &Vec<(String, JsonValue)>,
    idx: usize,
    ind: usize,
    first: bool,
    out: &mut Vec<char>,
)
    requires
        idx <= fields@.len(),
    ensures
        final(out)@ == old(out)@ + spec_write_fields(
            view_fields(fields@).skip(idx as int),
            ind as nat,
            first,
        ),
    decreases fields, 1int, fields@.len() - idx,
{
    if idx < fields.len() {
        if first {
            out.push('\n');
        } else {
            out.push(',');
            out.push('\n');
        }
        push_indent(ind, out);
        let pair = &fields[idx];
        let cs = chars_of(pair.0.as_str());
        out.push('"');
        push_esc(&cs, 0, out);
        out.push('"');
        out.push(':');
        out.push(' ');
        write_value(&pair.1, ind, out);
        write_fields(fields, idx + 1, ind, false, out);
        proof {
            lemma_view_fields(fields@);
            let tail = view_fields(fields@).skip(idx as int);
            assert(tail[0] == (fields@[idx as int].0@, fields@[idx as int].1@));
            assert(cs@.skip(0) =~= fields@[idx as int].0@);
            assert(tail.drop_first() =~= view_fields(fields@).skip(idx as int + 1));
            assert(final(out)@ =~= old(out)@ + spec_write_fields(tail, ind as nat, first));
        }
    } else {
        proof {
            lemma_view_fields(fields@);
            assert(view_fields(fields@).skip(idx as int) =~= Seq::<(Seq<char>, SpecJson)>::empty());
        }
    }
}

/// Pretty-prints a JSON value as text, two-space indentation, keys in
/// declaration order.
pub fn write_json(v: &JsonValue) -> (r: String)
    ensures
        r@ == spec_write(v@, 0),
{
    let mut out: Vec<char> = Vec::new();
    write_value(v, 0, &mut out);
    proof {
        assert(out@ =~= spec_write(v@, 0));
    }
    string_from_chars(&out)
}

} // verus!
