//! Resolving a record-shaped typed value into validated HTTP response
//! headers, and extracting a content type from them.

use vstd::prelude::*;
use crate::content_type::{ContentType, spec_parsed_mime};
use crate::typed_value::{TypedValue, get_literal, spec_literal_chars, spec_json_chars,
    to_json_string};

verus! {

/// Whether `c` may appear in an HTTP header name: the token characters
/// accepted by `http`'s header-name parser, upper case letters
/// included (they are mapped to lower case).
pub open spec fn spec_header_name_char(c: char) -> bool {
    ||| c == '!' || c == '#' || c == '$' || c == '%' || c == '&' || c == '\'' || c == '*'
    ||| c == '+' || c == '-' || c == '.' || c == '^' || c == '_' || c == '`' || c == '|'
    ||| c == '~'
    ||| 48 <= c as u32 <= 57
    ||| 97 <= c as u32 <= 122
    ||| 65 <= c as u32 <= 90
}

/// Whether `s` is a legal HTTP header name.
pub open spec fn spec_valid_header_name(s: Seq<char>) -> bool {
    &&& 0 < s.len() <= 0xFFFF
    &&& forall|i: int| 0 <= i < s.len() ==> spec_header_name_char(#[trigger] s[i])
}

/// `s` with upper case ASCII letters mapped to lower case.
pub open spec fn spec_lower_ascii(s: Seq<char>) -> Seq<char> {
    Seq::new(s.len(), |i: int|
        if 65 <= s[i] as u32 <= 90 {
            ((s[i] as u32 + 32) as u8) as char
        } else {
            s[i]
        }
    )
}

/// Whether `c` may appear in an HTTP header value: horizontal tab or
/// anything that is neither a control character nor delete.
pub open spec fn spec_header_value_char(c: char) -> bool {
    c == '\t' || (32 <= c as u32 && c as u32 != 127)
}

/// Whether `s` is a legal HTTP header value.
pub open spec fn spec_valid_header_value(s: Seq<char>) -> bool {
    forall|i: int| 0 <= i < s.len() ==> spec_header_value_char(#[trigger] s[i])
}

/// Relies on `http::HeaderName::from_bytes`: a name parses exactly when
/// it is non-empty, within the length cap, and made of token
/// characters; the parsed name is the lower-cased input.
#[verifier::external_body]
fn parse_header_name(s: &str) -> (r: Option<String>)
    ensures
        (match r {
            Some(t) => spec_valid_header_name(s@) && t@ == spec_lower_ascii(s@),
            None => !spec_valid_header_name(s@),
        }),
{
    match http::header::HeaderName::from_bytes(s.as_bytes()) {
        Ok(n) => Some(n.as_str().to_string()),
        Err(_) => None,
    }
}

/// Relies on `http::HeaderValue::from_str`: a value is accepted exactly
/// when every byte is horizontal tab or neither a control character nor
/// delete.
#[verifier::external_body]
fn header_value_is_legal(s: &str) -> (r: bool)
    ensures
        r == spec_valid_header_value(s@),
{
    http::HeaderValue::from_str(s).is_ok()
}

/// The (name, value) pairs of `s`, as character sequences.
pub open spec fn spec_pairs_view(s: Seq<(String, String)>) -> Seq<(Seq<char>, Seq<char>)> {
    Seq::new(s.len(), |i: int| (s[i].0@, s[i].1@))
}

/// `hs` with `value` stored under `name`: the first pair already named
/// `name` is replaced, else the pair is appended.
pub open spec fn spec_insert_from(
    hs: Seq<(Seq<char>, Seq<char>)>,
    name: Seq<char>,
    value: Seq<char>,
    i: int,
) -> Seq<(Seq<char>, Seq<char>)>
    decreases hs.len() - i,
{
    if i < 0 || i >= hs.len() {
        hs.push((name, value))
    } else if hs[i].0 == name {
        hs.update(i, (name, value))
    } else {
        spec_insert_from(hs, name, value, i + 1)
    }
}

/// The first value stored under `name`, searching from `i`.
pub open spec fn spec_lookup_from(
    hs: Seq<(Seq<char>, Seq<char>)>,
    name: Seq<char>,
    i: int,
) -> Option<Seq<char>>
    decreases hs.len() - i,
{
    if i < 0 || i >= hs.len() {
        None
    } else if hs[i].0 == name {
        Some(hs[i].1)
    } else {
        spec_lookup_from(hs, name, i + 1)
    }
}

/// The first value stored under `name`.
pub open spec fn spec_lookup(hs: Seq<(Seq<char>, Seq<char>)>, name: Seq<char>) -> Option<
    Seq<char>,
> {
    spec_lookup_from(hs, name, 0)
}

/// The error for a header expression that is not a record.
pub open spec fn spec_not_record_msg(v: TypedValue) -> Seq<char> {
    "Header expression is not a record. It is resolved to "@ + spec_json_chars(v)
}

/// The error for a field whose value is not a literal.
pub open spec fn spec_unresolved_field_msg(name: Seq<char>) -> Seq<char> {
    "Unable to resolve header value for field "@ + name
}

/// The error for an illegal header name.
pub open spec fn spec_invalid_name_msg(name: Seq<char>) -> Seq<char> {
    "Unable to resolve valid headers. Error: invalid header name "@ + name
}

/// The error for an illegal header value.
pub open spec fn spec_invalid_value_msg(name: Seq<char>) -> Seq<char> {
    "Unable to resolve valid headers. Error: invalid header value for "@ + name
}

/// The (name, stringified literal) pairs of a record's fields from
/// index `i` on, in field order: every field must reduce to a literal,
/// and the first that does not fails, naming the field.  Nothing is
/// validated here.
pub open spec fn spec_literal_pairs(fs: Seq<(String, TypedValue)>, i: int) -> Result<
    Seq<(Seq<char>, Seq<char>)>,
    Seq<char>,
>
    decreases fs.len() - i,
{
    if i < 0 || i >= fs.len() {
        Ok(Seq::empty())
    } else {
        match spec_literal_chars(fs[i].1) {
            None => Err(spec_unresolved_field_msg(fs[i].0@)),
            Some(value) => (match spec_literal_pairs(fs, i + 1) {
                Err(e) => Err(e),
                Ok(rest) => Ok(seq![(fs[i].0@, value)] + rest),
            }),
        }
    }
}

/// Validation of extracted (name, literal) pairs from index `i` on,
/// with the pairs `acc` already stored: the first illegal name or
/// value fails; a legal pair is stored under its lower-cased name.
pub open spec fn spec_validate_pairs(
    ps: Seq<(Seq<char>, Seq<char>)>,
    i: int,
    acc: Seq<(Seq<char>, Seq<char>)>,
) -> Result<Seq<(Seq<char>, Seq<char>)>, Seq<char>>
    decreases ps.len() - i,
{
    if i < 0 || i >= ps.len() {
        Ok(acc)
    } else {
        let name = ps[i].0;
        if !spec_valid_header_name(name) {
            Err(spec_invalid_name_msg(name))
        } else if !spec_valid_header_value(ps[i].1) {
            Err(spec_invalid_value_msg(name))
        } else {
            spec_validate_pairs(ps, i + 1, spec_insert_from(acc, spec_lower_ascii(name),
                ps[i].1, 0))
        }
    }
}

/// What header resolution makes of a typed value: a record first
/// reduces every field to its literal, then validates the (name,
/// value) pairs; anything else is a shape error carrying the JSON
/// rendering of the value.
pub open spec fn spec_from_typed_value(v: TypedValue) -> Result<
    Seq<(Seq<char>, Seq<char>)>,
    Seq<char>,
> {
    match v {
        TypedValue::Record(fields) => (match spec_literal_pairs(fields@, 0) {
            Err(e) => Err(e),
            Ok(ps) => spec_validate_pairs(ps, 0, Seq::empty()),
        }),
        _ => Err(spec_not_record_msg(v)),
    }
}

proof fn lemma_literal_pairs_err(fs: Seq<(String, TypedValue)>, i: int, j: int)
    requires
        0 <= i <= j < fs.len(),
        forall|k: int| i <= k < j ==> spec_literal_chars((#[trigger] fs[k]).1) is Some,
        spec_literal_chars(fs[j].1) is None,
    ensures
        spec_literal_pairs(fs, i) == Err::<Seq<(Seq<char>, Seq<char>)>, Seq<char>>(
            spec_unresolved_field_msg(fs[j].0@)),
    decreases j - i,
{
    if i < j {
        lemma_literal_pairs_err(fs, i + 1, j);
    }
}

proof fn lemma_literal_pairs_ok(fs: Seq<(String, TypedValue)>, i: int)
    requires
        0 <= i <= fs.len(),
        forall|k: int| i <= k < fs.len() ==> spec_literal_chars((#[trigger] fs[k]).1) is Some,
    ensures
        spec_literal_pairs(fs, i) is Ok,
        spec_literal_pairs(fs, i)->Ok_0.len() == fs.len() - i,
        forall|k: int| 0 <= k < fs.len() - i ==> #[trigger] spec_literal_pairs(fs, i)->Ok_0[k]
            == (fs[i + k].0@, spec_literal_chars(fs[i + k].1)->Some_0),
    decreases fs.len() - i,
{
    if i < fs.len() {
        lemma_literal_pairs_ok(fs, i + 1);
    }
}

/// Validated HTTP response headers: lower-cased legal names mapped to
/// legal values, in first-insertion order.
#[derive(Debug)]
pub struct ResolvedResponseHeaders {
    headers: Vec<(String, String)>,
}

impl View for ResolvedResponseHeaders {
    type V = Seq<(Seq<char>, Seq<char>)>;

    closed spec fn view(&self) -> Seq<(Seq<char>, Seq<char>)> {
        spec_pairs_view(self.headers@)
    }
}

impl Default for ResolvedResponseHeaders {
    /// An empty header collection.
    fn default() -> (r: Self)
        ensures
            r@ == Seq::<(Seq<char>, Seq<char>)>::empty(),
    {
        let r = ResolvedResponseHeaders { headers: Vec::new() };
        proof {
            assert(r@ =~= Seq::<(Seq<char>, Seq<char>)>::empty());
        }
        r
    }
}

/// Stores `value` under `name`, replacing the first pair already named
/// `name`.
fn insert_pair(hs: &mut Vec<(String, String)>, name: String, value: String)
    ensures
        spec_pairs_view(final(hs)@) == spec_insert_from(spec_pairs_view(old(hs)@), name@,
            value@, 0),
{
    let ghost orig = spec_pairs_view(hs@);
    let mut j: usize = 0;
    while j < hs.len()
        invariant
            j <= hs@.len(),
            hs@ == old(hs)@,
            orig == spec_pairs_view(hs@),
            spec_insert_from(orig, name@, value@, 0) == spec_insert_from(orig, name@, value@,
                j as int),
        decreases hs@.len() - j,
    {
        if hs[j].0 == name {
            proof {
                assert(orig[j as int].0 == name@);
            }
            hs.set(j, (name, value));
            proof {
                assert(spec_insert_from(orig, name@, value@, j as int) == orig.update(
                    j as int, (name@, value@)));
                assert(spec_pairs_view(hs@) =~= orig.update(j as int, (name@, value@)));
            }
            return;
        }
        proof {
            assert(orig[j as int].0 != name@);
        }
        j = j + 1;
    }
    hs.push((name, value));
    proof {
        assert(spec_pairs_view(hs@) =~= orig.push((name@, value@)));
    }
}

impl ResolvedResponseHeaders {
    /// Resolves a record-shaped typed value into validated headers.
    ///
    /// Every field is first reduced to its literal, failing with an
    /// error naming the first field that is no literal; only then is
    /// every (name, value) pair validated as legal HTTP header
    /// material, failing on the first illegal pair.  A value of any
    /// other shape fails with an error carrying its JSON rendering.
    pub fn from_typed_value(header_map: &TypedValue) -> (r: Result<
        ResolvedResponseHeaders,
        String,
    >)
        ensures
            (match (r, spec_from_typed_value(*header_map)) {
                (Ok(h), Ok(m)) => h@ == m,
                (Err(e), Err(me)) => e@ == me,
                _ => false,
            }),
    {
        match header_map {
            TypedValue::Record(fields) => {
                let mut raw: Vec<(String, String)> = Vec::new();
                let mut i: usize = 0;
                while i < fields.len()
                    invariant
                        i <= fields@.len(),
                        *header_map is Record,
                        *fields == (*header_map)->Record_0,
                        raw@.len() == i,
                        forall|k: int| 0 <= k < i ==> {
                            &&& (#[trigger] raw@[k]).0@ == fields@[k].0@
                            &&& Some(raw@[k].1@) == spec_literal_chars(fields@[k].1)
                        },
                    decreases fields@.len() - i,
                {
                    match get_literal(&fields[i].1) {
                        None => {
                            proof {
                                assert forall|k: int| 0 <= k < i implies spec_literal_chars(
                                    (#[trigger] fields@[k]).1) is Some by {
                                    assert(Some(raw@[k].1@) == spec_literal_chars(
                                        fields@[k].1));
                                }
                                lemma_literal_pairs_err(fields@, 0, i as int);
                            }
                            let mut m = String::from_str(
                                "Unable to resolve header value for field ");
                            m.append(fields[i].0.as_str());
                            return Err(m);
                        },
                        Some(value) => {
                            raw.push((fields[i].0.clone(), value));
                        },
                    }
                    i = i + 1;
                }
                let ghost ps = spec_pairs_view(raw@);
                proof {
                    assert forall|k: int| 0 <= k < fields@.len() implies spec_literal_chars(
                        (#[trigger] fields@[k]).1) is Some by {
                        assert(Some(raw@[k].1@) == spec_literal_chars(fields@[k].1));
                    }
                    lemma_literal_pairs_ok(fields@, 0);
                    assert(spec_literal_pairs(fields@, 0)->Ok_0 =~= ps);
                }
                let mut out: Vec<(String, String)> = Vec::new();
                let mut j: usize = 0;
                assert(spec_pairs_view(out@) =~= Seq::<(Seq<char>, Seq<char>)>::empty());
                while j < raw.len()
                    invariant
                        j <= raw@.len(),
                        *header_map is Record,
                        *fields == (*header_map)->Record_0,
                        ps == spec_pairs_view(raw@),
                        spec_literal_pairs(fields@, 0) == Ok::<Seq<(Seq<char>, Seq<char>)>,
                            Seq<char>>(ps),
                        spec_validate_pairs(ps, 0, Seq::empty()) == spec_validate_pairs(ps,
                            j as int, spec_pairs_view(out@)),
                    decreases raw@.len() - j,
                {
                    proof {
                        assert(ps[j as int] == (raw@[j as int].0@, raw@[j as int].1@));
                    }
                    match parse_header_name(raw[j].0.as_str()) {
                        None => {
                            let mut m = String::from_str(
                                "Unable to resolve valid headers. Error: invalid header name ");
                            m.append(raw[j].0.as_str());
                            return Err(m);
                        },
                        Some(lowered) => {
                            if !header_value_is_legal(raw[j].1.as_str()) {
                                let mut m = String::from_str(
                                    "Unable to resolve valid headers. Error: invalid header value for ");
                                m.append(raw[j].0.as_str());
                                return Err(m);
                            }
                            let value = raw[j].1.clone();
                            insert_pair(&mut out, lowered, value);
                        },
                    }
                    j = j + 1;
                }
                Ok(ResolvedResponseHeaders { headers: out })
            },
            _ => {
                let mut m = String::from_str(
                    "Header expression is not a record. It is resolved to ");
                let rendered = to_json_string(header_map);
                m.append(rendered.as_str());
                Err(m)
            },
        }
    }

    /// The value stored under `name`, if any.
    pub fn get<'a>(&'a self, name: &String) -> (r: Option<&'a String>)
        ensures
            (match (r, spec_lookup(self@, name@)) {
                (Some(v), Some(sv)) => v@ == sv,
                (None, None) => true,
                _ => false,
            }),
    {
        let mut j: usize = 0;
        while j < self.headers.len()
            invariant
                j <= self.headers@.len(),
                spec_lookup(self@, name@) == spec_lookup_from(self@, name@, j as int),
            decreases self.headers@.len() - j,
        {
            if self.headers[j].0 == *name {
                return Some(&self.headers[j].1);
            }
            j = j + 1;
        }
        None
    }

    /// The content type carried by these headers: the value under the
    /// canonical `content-type` key, parsed; absent when the key is
    /// missing or its value does not parse — never an error.
    pub fn get_content_type(&self) -> (r: Option<ContentType>)
        ensures
            (match (r, spec_content_type_of(self@)) {
                (Some(ct), Some(m)) => ct.value@ == m,
                (None, None) => true,
                _ => false,
            }),
    {
        let key = String::from_str("content-type");
        match self.get(&key) {
            None => None,
            Some(v) => ContentType::parse(v.as_str()),
        }
    }

    /// The resolved (name, value) pairs, in first-insertion order.
    pub fn to_pairs(&self) -> (r: Vec<(String, String)>)
        ensures
            spec_pairs_view(r@) == self@,
    {
        let mut out: Vec<(String, String)> = Vec::new();
        let mut j: usize = 0;
        while j < self.headers.len()
            invariant
                j <= self.headers@.len(),
                out@.len() == j,
                forall|k: int| 0 <= k < j ==> (#[trigger] out@[k]).0@ == self.headers@[k].0@
                    && out@[k].1@ == self.headers@[k].1@,
            decreases self.headers@.len() - j,
        {
            out.push((self.headers[j].0.clone(), self.headers[j].1.clone()));
            j = j + 1;
        }
        proof {
            assert(spec_pairs_view(out@) =~= self@);
        }
        out
    }
}

/// The content type carried by resolved headers, as a function of their
/// pairs.
pub open spec fn spec_content_type_of(hs: Seq<(Seq<char>, Seq<char>)>) -> Option<Seq<char>> {
    match spec_lookup(hs, "content-type"@) {
        None => None,
        Some(v) => spec_parsed_mime(v),
    }
}

} // verus!
