//! The tagged value tree produced by evaluating a binding expression,
//! and the accessors the gateway needs: literal extraction, field
//! lookup on records, and a diagnostic JSON rendering.

use vstd::prelude::*;
use crate::hashing::{spec_hex_digit, hex_digit_str};
use crate::text::{spec_u64_chars, spec_i64_chars, u64_to_string, i64_to_string};

verus! {

/// A dynamically tagged evaluation result: a closed sum over the
/// shapes the gateway consumes.
///
/// A floating-point literal is carried as its decimal rendering,
/// since the gateway only ever stringifies it.
#[derive(Debug)]
pub enum TypedValue {
    Str(String),
    U64(u64),
    S64(i64),
    Bool(bool),
    Float { rendered: String },
    Record(Vec<(String, TypedValue)>),
    Success(Option<Box<TypedValue>>),
    Failure(Option<Box<TypedValue>>),
}

/// The outcome of evaluating a binding expression: a value, or nothing.
#[derive(Debug)]
pub enum RibResult {
    Val(TypedValue),
    Unit,
}

/// The stringified literal a value reduces to, if it is a literal.
pub open spec fn spec_literal_chars(v: TypedValue) -> Option<Seq<char>> {
    match v {
        TypedValue::Str(s) => Some(s@),
        TypedValue::U64(n) => Some(spec_u64_chars(n as nat)),
        TypedValue::S64(n) => Some(spec_i64_chars(n as int)),
        TypedValue::Bool(b) => Some(if b { seq!['t', 'r', 'u', 'e'] } else { seq!['f', 'a', 'l', 's', 'e'] }),
        TypedValue::Float { rendered } => Some(rendered@),
        _ => None,
    }
}

/// Reduces a value to its stringified literal; `None` for records,
/// success/failure wrappers, and other non-literal shapes.
pub fn get_literal(v: &TypedValue) -> (r: Option<String>)
    ensures
        (match (r, spec_literal_chars(*v)) {
            (Some(s), Some(t)) => s@ == t,
            (None, None) => true,
            _ => false,
        }),
{
    match v {
        TypedValue::Str(s) => Some(s.clone()),
        TypedValue::U64(n) => Some(u64_to_string(*n)),
        TypedValue::S64(n) => Some(i64_to_string(*n)),
        TypedValue::Bool(b) => {
            let r = if *b {
                String::from_str("true")
            } else {
                String::from_str("false")
            };
            proof {
                reveal_strlit("true");
                reveal_strlit("false");
                if *b {
                    assert(r@ =~= seq!['t', 'r', 'u', 'e']);
                } else {
                    assert(r@ =~= seq!['f', 'a', 'l', 's', 'e']);
                }
            }
            Some(r)
        },
        TypedValue::Float { rendered } => Some(rendered.clone()),
        _ => None,
    }
}

/// The first field of `fs` named `name`, searching from index `i`.
pub open spec fn spec_find_field_from(
    fs: Seq<(String, TypedValue)>,
    name: Seq<char>,
    i: int,
) -> Option<TypedValue>
    decreases fs.len() - i,
{
    if i < 0 || i >= fs.len() {
        None
    } else if fs[i].0@ == name {
        Some(fs[i].1)
    } else {
        spec_find_field_from(fs, name, i + 1)
    }
}

/// The first field of `fs` named `name`.
pub open spec fn spec_find_field(fs: Seq<(String, TypedValue)>, name: Seq<char>) -> Option<
    TypedValue,
> {
    spec_find_field_from(fs, name, 0)
}

/// Looks up the first field of a record named `name`.
pub fn find_field<'a>(fields: &'a Vec<(String, TypedValue)>, name: &String) -> (r: Option<
    &'a TypedValue,
>)
    ensures
        (match (r, spec_find_field(fields@, name@)) {
            (Some(v), Some(sv)) => *v == sv,
            (None, None) => true,
            _ => false,
        }),
{
    let mut i: usize = 0;
    while i < fields.len()
        invariant
            i <= fields@.len(),
            spec_find_field(fields@, name@) == spec_find_field_from(fields@, name@, i as int),
        decreases fields@.len() - i,
    {
        if fields[i].0 == *name {
            return Some(&fields[i].1);
        }
        i = i + 1;
    }
    None
}

/// The escape sequence a character contributes to a JSON string literal.
pub open spec fn spec_json_escaped_char(c: char) -> Seq<char> {
    if c == '"' {
        seq!['\\', '"']
    } else if c == '\\' {
        seq!['\\', '\\']
    } else if c == '\n' {
        seq!['\\', 'n']
    } else if c == '\r' {
        seq!['\\', 'r']
    } else if c == '\t' {
        seq!['\\', 't']
    } else if (c as u32) < 32 {
        seq!['\\', 'u', '0', '0', spec_hex_digit((c as u32 / 16) as u8), spec_hex_digit(
            (c as u32 % 16) as u8,
        )]
    } else {
        seq![c]
    }
}

/// The body of the JSON string literal for `s`.
pub open spec fn spec_json_escaped(s: Seq<char>) -> Seq<char>
    decreases s.len(),
{
    if s.len() == 0 {
        Seq::empty()
    } else {
        spec_json_escaped(s.drop_last()) + spec_json_escaped_char(s.last())
    }
}

/// The JSON rendering of a value, used for diagnostics in error
/// messages: strings are quoted and escaped, numbers rendered in
/// decimal, records become objects, and a success or failure wrapper
/// becomes an object with a single `ok` or `err` member.
pub open spec fn spec_json_chars(v: TypedValue) -> Seq<char>
    decreases v, 1int,
{
    match v {
        TypedValue::Str(s) => seq!['"'] + spec_json_escaped(s@) + seq!['"'],
        TypedValue::U64(n) => spec_u64_chars(n as nat),
        TypedValue::S64(n) => spec_i64_chars(n as int),
        TypedValue::Bool(b) => (if b { seq!['t', 'r', 'u', 'e'] } else { seq!['f', 'a', 'l', 's', 'e'] }),
        TypedValue::Float { rendered } => rendered@,
        TypedValue::Record(fields) => seq!['{'] + spec_json_members(fields@, fields@.len() as int)
            + seq!['}'],
        TypedValue::Success(inner) => seq!['{', '"', 'o', 'k', '"', ':'] + spec_json_inner(inner)
            + seq!['}'],
        TypedValue::Failure(inner) => seq!['{', '"', 'e', 'r', 'r', '"', ':'] + spec_json_inner(
            inner,
        ) + seq!['}'],
    }
}

/// The JSON rendering of an optional wrapped value; `null` when absent.
pub open spec fn spec_json_inner(inner: Option<Box<TypedValue>>) -> Seq<char>
    decreases inner, 0int,
{
    match inner {
        Some(b) => spec_json_chars(*b),
        None => seq!['n', 'u', 'l', 'l'],
    }
}

/// The JSON rendering of the first `i` members of a record body.
pub open spec fn spec_json_members(fs: Seq<(String, TypedValue)>, i: int) -> Seq<char>
    decreases fs, i,
{
    if i <= 0 || i > fs.len() {
        Seq::empty()
    } else {
        spec_json_members(fs, i - 1) + (if i > 1 { seq![','] } else { Seq::empty() }) + seq!['"']
            + spec_json_escaped(fs[i - 1].0@) + seq!['"', ':'] + spec_json_chars(fs[i - 1].1)
    }
}

/// Appends the JSON string-literal body of `s` to `out`.
fn append_json_escaped(out: &mut String, s: &str)
    ensures
        final(out)@ == old(out)@ + spec_json_escaped(s@),
{
    let n: usize = s.unicode_len();
    let mut i: usize = 0;
    while i < n
        invariant
            n == s@.len(),
            i <= n,
            out@ =~= old(out)@ + spec_json_escaped(s@.take(i as int)),
        decreases n - i,
    {
        let c = s.get_char(i);
        let ghost prefix = s@.take(i as int);
        proof {
            assert(s@.take(i + 1).drop_last() =~= prefix);
            assert(s@.take(i + 1).last() == c);
        }
        if c == '"' {
            proof { reveal_strlit("\\\""); }
            out.append("\\\"");
            assert(out@ =~= old(out)@ + spec_json_escaped(s@.take(i + 1)));
        } else if c == '\\' {
            proof { reveal_strlit("\\\\"); }
            out.append("\\\\");
            assert(out@ =~= old(out)@ + spec_json_escaped(s@.take(i + 1)));
        } else if c == '\n' {
            proof { reveal_strlit("\\n"); }
            out.append("\\n");
            assert(out@ =~= old(out)@ + spec_json_escaped(s@.take(i + 1)));
        } else if c == '\r' {
            proof { reveal_strlit("\\r"); }
            out.append("\\r");
            assert(out@ =~= old(out)@ + spec_json_escaped(s@.take(i + 1)));
        } else if c == '\t' {
            proof { reveal_strlit("\\t"); }
            out.append("\\t");
            assert(out@ =~= old(out)@ + spec_json_escaped(s@.take(i + 1)));
        } else if (c as u32) < 32 {
            proof { reveal_strlit("\\u00"); }
            out.append("\\u00");
            let code: u32 = c as u32;
            out.append(hex_digit_str((code / 16) as u8));
            out.append(hex_digit_str((code % 16) as u8));
            assert(out@ =~= old(out)@ + spec_json_escaped(s@.take(i + 1)));
        } else {
            let piece = s.substring_char(i, i + 1);
            assert(piece@ =~= seq![c]);
            out.append(piece);
            assert(out@ =~= old(out)@ + spec_json_escaped(s@.take(i + 1)));
        }
        i = i + 1;
    }
    proof {
        assert(s@.take(n as int) =~= s@);
    }
}

/// Appends the JSON rendering of `v` to `out`.
fn append_json(out: &mut String, v: &TypedValue)
    ensures
        final(out)@ == old(out)@ + spec_json_chars(*v),
    decreases *v, 1int,
{
    match v {
        TypedValue::Str(s) => {
            proof { reveal_strlit("\""); }
            out.append("\"");
            append_json_escaped(out, s.as_str());
            out.append("\"");
            assert(out@ =~= old(out)@ + spec_json_chars(*v));
        },
        TypedValue::U64(n) => {
            let t = u64_to_string(*n);
            out.append(t.as_str());
        },
        TypedValue::S64(n) => {
            let t = i64_to_string(*n);
            out.append(t.as_str());
        },
        TypedValue::Bool(b) => {
            proof {
                reveal_strlit("true");
                reveal_strlit("false");
            }
            if *b {
                out.append("true");
                assert(out@ =~= old(out)@ + spec_json_chars(*v));
            } else {
                out.append("false");
                assert(out@ =~= old(out)@ + spec_json_chars(*v));
            }
        },
        TypedValue::Float { rendered } => {
            out.append(rendered.as_str());
        },
        TypedValue::Record(fields) => {
            proof {
                reveal_strlit("{");
                reveal_strlit("}");
                reveal_strlit(",");
                reveal_strlit("\"");
                reveal_strlit("\":");
            }
            let ghost base = out@;
            out.append("{");
            let mut i: usize = 0;
            while i < fields.len()
                invariant
                    i <= fields@.len(),
                    *v is Record,
                    *fields == (*v)->Record_0,
                    out@ =~= base + seq!['{'] + spec_json_members(fields@, i as int),
                    "{"@ =~= seq!['{'],
                    "}"@ =~= seq!['}'],
                    ","@ =~= seq![','],
                    "\""@ =~= seq!['"'],
                    "\":"@ =~= seq!['"', ':'],
                decreases fields@.len() - i,
            {
                if i > 0 {
                    out.append(",");
                }
                out.append("\"");
                append_json_escaped(out, fields[i].0.as_str());
                out.append("\":");
                proof {
                    broadcast use vstd::seq::group_seq_axioms;

                    assert(decreases_to!(*v => (*v)->Record_0));
                    assert(decreases_to!(*fields => fields@));
                    assert(decreases_to!(fields@ => fields@[i as int]));
                    assert(decreases_to!(fields@[i as int] => fields@[i as int].1));
                    assert(decreases_to!(*v => fields@[i as int].1));
                }
                append_json(out, &fields[i].1);
                assert(out@ =~= base + seq!['{'] + spec_json_members(fields@, i + 1));
                i = i + 1;
            }
            out.append("}");
            assert(out@ =~= old(out)@ + spec_json_chars(*v));
        },
        TypedValue::Success(inner) => {
            proof {
                reveal_strlit("{\"ok\":");
                reveal_strlit("}");
            }
            out.append("{\"ok\":");
            assert(out@ =~= old(out)@ + seq!['{', '"', 'o', 'k', '"', ':']);
            append_json_inner(out, inner);
            out.append("}");
            assert(out@ =~= old(out)@ + spec_json_chars(*v));
        },
        TypedValue::Failure(inner) => {
            proof {
                reveal_strlit("{\"err\":");
                reveal_strlit("}");
            }
            out.append("{\"err\":");
            assert(out@ =~= old(out)@ + seq!['{', '"', 'e', 'r', 'r', '"', ':']);
            append_json_inner(out, inner);
            out.append("}");
            assert(out@ =~= old(out)@ + spec_json_chars(*v));
        },
    }
}

/// Appends the JSON rendering of an optional wrapped value to `out`.
fn append_json_inner(out: &mut String, inner: &Option<Box<TypedValue>>)
    ensures
        final(out)@ == old(out)@ + spec_json_inner(*inner),
    decreases *inner, 0int,
{
    match inner {
        Some(b) => {
            proof {
                assert(decreases_to!(*inner, 0int => *(*b), 1int));
            }
            append_json(out, &**b);
        },
        None => {
            proof { reveal_strlit("null"); }
            out.append("null");
            assert(out@ =~= old(out)@ + seq!['n', 'u', 'l', 'l']);
        },
    }
}

/// Renders `v` as diagnostic JSON.
pub fn to_json_string(v: &TypedValue) -> (r: String)
    ensures
        r@ == spec_json_chars(*v),
{
    let mut out = String::new();
    append_json(&mut out, v);
    out
}

} // verus!
