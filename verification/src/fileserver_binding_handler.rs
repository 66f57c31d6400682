//! Resolving a binding evaluation result into file-serving details,
//! and deciding per request whether the bytes come from the
//! content-addressed blob store or from a live worker.

use vstd::prelude::*;
use crate::content_type::{ContentType, spec_parsed_mime, spec_guessed_mime};
use crate::hashing::{content_hash_hex, spec_content_hash, lemma_hex_chars_are_hex};
use crate::headers::{ResolvedResponseHeaders, spec_from_typed_value, spec_content_type_of};
use crate::initial_component_files::{InitialComponentFilesService, StoreView, spec_store_find};
use crate::model::{ComponentMetadata, FilePermission, InitialComponentFile,
    InitialComponentFileKey, InitialComponentFilePath, VersionedComponentId, WorkerDetail,
    WorkerTargetIdentity, spec_normalize_path};
use crate::text::{spec_all_digits, spec_dec_value};
use crate::typed_value::{RibResult, TypedValue, find_field, spec_find_field, spec_json_chars,
    to_json_string};
use vstd::utf8::encode_utf8;

verus! {

/// The status code a digit string coerces to: exactly three digits,
/// value 100..=999.
pub open spec fn spec_status_from_chars(s: Seq<char>) -> Option<u16> {
    if spec_all_digits(s) && s.len() == 3 && 100 <= spec_dec_value(s) <= 999 {
        Some(spec_dec_value(s) as u16)
    } else {
        None
    }
}

/// The status code a typed value coerces to: a numeric literal or a
/// digit string in 100..=999; anything else does not coerce.
pub open spec fn spec_status_from_value(v: TypedValue) -> Option<u16> {
    match v {
        TypedValue::U64(n) => if 100 <= n <= 999 {
            Some(n as u16)
        } else {
            None
        },
        TypedValue::S64(n) => if 100 <= n <= 999 {
            Some(n as u16)
        } else {
            None
        },
        TypedValue::Str(s) => spec_status_from_chars(s@),
        _ => None,
    }
}

/// Coerces a typed value to an HTTP status code.
pub fn get_status_code(v: &TypedValue) -> (r: Option<u16>)
    ensures
        r == spec_status_from_value(*v),
{
    match v {
        TypedValue::U64(n) => {
            if 100 <= *n && *n <= 999 {
                Some(*n as u16)
            } else {
                None
            }
        },
        TypedValue::S64(n) => {
            if 100 <= *n && *n <= 999 {
                Some(*n as u16)
            } else {
                None
            }
        },
        TypedValue::Str(s) => {
            let n: usize = s.as_str().unicode_len();
            if n != 3 {
                return None;
            }
            let c0 = s.as_str().get_char(0);
            let c1 = s.as_str().get_char(1);
            let c2 = s.as_str().get_char(2);
            let d0: u32 = c0 as u32;
            let d1: u32 = c1 as u32;
            let d2: u32 = c2 as u32;
            if d0 < 48 || d0 > 57 || d1 < 48 || d1 > 57 || d2 < 48 || d2 > 57 {
                return None;
            }
            proof {
                let q = s@;
                assert(q.drop_last().drop_last().drop_last().len() == 0);
                assert(q.drop_last().drop_last().last() == q[0]);
                assert(q.drop_last().last() == q[1]);
                assert(q.last() == q[2]);
                assert(spec_dec_value(q.drop_last().drop_last().drop_last()) == 0);
                assert(spec_dec_value(q.drop_last().drop_last()) == d0 - 48);
                assert(spec_dec_value(q.drop_last()) == (d0 - 48) * 10 + (d1 - 48));
                assert(spec_dec_value(q) == ((d0 - 48) * 10 + (d1 - 48)) * 10 + (d2 - 48));
                assert(spec_dec_value(q) == ((d0 - 48) * 100 + (d1 - 48) * 10 + (d2
                    - 48)));
            }
            let value: u32 = (d0 - 48) * 100 + (d1 - 48) * 10 + (d2 - 48);
            if 100 <= value && value <= 999 {
                Some(value as u16)
            } else {
                None
            }
        },
        _ => None,
    }
}

/// File-serving instructions resolved from an evaluation result.
#[derive(Debug)]
pub struct FileServerBindingDetails {
    pub mime_type: ContentType,
    pub status_code: u16,
    pub file_path: InitialComponentFilePath,
}

impl Clone for FileServerBindingDetails {
    fn clone(&self) -> (r: Self)
        ensures
            r == *self,
    {
        FileServerBindingDetails {
            mime_type: self.mime_type.clone(),
            status_code: self.status_code,
            file_path: self.file_path.clone(),
        }
    }
}

/// Whether the details carry exactly the (path, content type, status)
/// triple `t`.
pub open spec fn spec_details_match(d: FileServerBindingDetails, t: (Seq<char>, Seq<char>, u16))
    -> bool {
    d.file_path@ == t.0 && d.mime_type.value@ == t.1 && d.status_code == t.2
}

/// `o` as an optional character sequence.
pub open spec fn spec_opt_chars(o: Option<String>) -> Option<Seq<char>> {
    match o {
        Some(s) => Some(s@),
        None => None,
    }
}

/// Final assembly of file-serving details: the path is normalized, the
/// content type is resolved with precedence explicit value, then guess
/// from the path's extension, and the status defaults to 200.
pub open spec fn spec_make_from(
    path: Seq<char>,
    mime: Option<Seq<char>>,
    status: Option<u16>,
) -> Result<(Seq<char>, Seq<char>, u16), Seq<char>> {
    if path.len() == 0 {
        Err("empty file path"@)
    } else {
        let ct = (match mime {
            Some(m) => (match spec_parsed_mime(m) {
                Some(t) => Ok(t),
                None => Err("Invalid mime type: "@ + m),
            }),
            None => (match spec_guessed_mime(path) {
                Some(t) => Ok(t),
                None => Err("Could not determine mime type"@),
            }),
        });
        match ct {
            Err(e) => Err(e),
            Ok(t) => Ok((spec_normalize_path(path), t, (match status {
                Some(c) => c,
                None => 200u16,
            }))),
        }
    }
}

/// Resolution of an evaluation result that is already unwrapped from
/// any success/failure tagging: a plain string is a path; a record
/// must carry a `file-path` string and may carry `status` and
/// `headers`; anything else is a shape error.
pub open spec fn spec_from_rib_happy(v: TypedValue) -> Result<
    (Seq<char>, Seq<char>, u16),
    Seq<char>,
> {
    match v {
        TypedValue::Str(path) => spec_make_from(path@, None, None),
        TypedValue::Record(fields) => (match spec_find_field(fields@, "file-path"@) {
            None => Err("missing file-path field"@),
            Some(pv) => (match pv {
                TypedValue::Str(path) => {
                    let status_r = (match spec_find_field(fields@, "status"@) {
                        None => Ok(None),
                        Some(sv) => (match spec_status_from_value(sv) {
                            Some(c) => Ok(Some(c)),
                            None => Err("invalid status code: "@ + spec_json_chars(sv)),
                        }),
                    });
                    let headers_r = (match spec_find_field(fields@, "headers"@) {
                        None => Ok(None),
                        Some(hv) => (match spec_from_typed_value(hv) {
                            Ok(hs) => Ok(spec_content_type_of(hs)),
                            Err(e) => Err(e),
                        }),
                    });
                    match status_r {
                        Err(e) => Err(e),
                        Ok(st) => (match headers_r {
                            Err(e) => Err(e),
                            Ok(ct) => spec_make_from(path@, ct, st),
                        }),
                    }
                },
                _ => Err("'file-server' must provide a string path, but evaluated to '"@
                    + spec_json_chars(pv) + "'"@),
            }),
        }),
        _ => Err("response value expected"@),
    }
}

/// Recursive resolution of an evaluation value: a success tagging
/// resolves its inner value by the same rules, however deeply nested;
/// a failure tagging fails with the JSON rendering of its payload;
/// anything else resolves by the string/record rules.
pub open spec fn spec_from_rib_value(v: TypedValue) -> Result<
    (Seq<char>, Seq<char>, u16),
    Seq<char>,
>
    decreases v,
{
    match v {
        TypedValue::Success(o) => (match o {
            Some(b) => spec_from_rib_value(*b),
            None => Err("ok unset"@),
        }),
        TypedValue::Failure(o) => (match o {
            Some(b) => Err(spec_json_chars(*b)),
            None => Err("err unset"@),
        }),
        _ => spec_from_rib_happy(v),
    }
}

/// Resolution of an evaluation result: an empty result is rejected;
/// a value resolves recursively by `spec_from_rib_value`.
pub open spec fn spec_from_rib(r: RibResult) -> Result<(Seq<char>, Seq<char>, u16), Seq<char>> {
    match r {
        RibResult::Unit => Err("expected a value"@),
        RibResult::Val(v) => spec_from_rib_value(v),
    }
}

/// The success branch recurses: a success-tagged value resolves to
/// exactly what its inner value resolves to.
pub proof fn lemma_success_branch_recurses(b: Box<TypedValue>)
    ensures
        spec_from_rib_value(TypedValue::Success(Some(b))) == spec_from_rib_value(*b),
{
}

impl FileServerBindingDetails {
    /// Resolves an evaluation result into file-serving details.
    ///
    /// Supported shapes: a plain string path; a record with a
    /// `file-path` field and optional `status` and `headers` fields;
    /// either of those wrapped in success/failure taggings, resolved
    /// recursively, where a failure branch fails with the JSON
    /// rendering of its payload.
    pub fn from_rib(result: &RibResult) -> (r: Result<FileServerBindingDetails, String>)
        ensures
            (match (r, spec_from_rib(*result)) {
                (Ok(d), Ok(t)) => spec_details_match(d, t),
                (Err(e), Err(m)) => e@ == m,
                _ => false,
            }),
    {
        match result {
            RibResult::Unit => Err(String::from_str("expected a value")),
            RibResult::Val(v) => Self::from_rib_value(v),
        }
    }

    /// Resolves one evaluation value, unwrapping success taggings
    /// recursively.
    fn from_rib_value(value: &TypedValue) -> (r: Result<FileServerBindingDetails, String>)
        ensures
            (match (r, spec_from_rib_value(*value)) {
                (Ok(d), Ok(t)) => spec_details_match(d, t),
                (Err(e), Err(m)) => e@ == m,
                _ => false,
            }),
        decreases *value,
    {
        match value {
            TypedValue::Success(o) => match o {
                Some(b) => {
                    proof {
                        assert(decreases_to!(*value => (*value)->Success_0));
                        assert(decreases_to!(*o => *(*b)));
                        assert(decreases_to!(*value => *(*b)));
                    }
                    Self::from_rib_value(&**b)
                },
                None => Err(String::from_str("ok unset")),
            },
            TypedValue::Failure(o) => match o {
                Some(b) => Err(to_json_string(&**b)),
                None => Err(String::from_str("err unset")),
            },
            _ => Self::from_rib_happy(value),
        }
    }

    /// Like `from_rib`, just without the success/failure case.
    pub fn from_rib_happy(value: &TypedValue) -> (r: Result<FileServerBindingDetails, String>)
        ensures
            (match (r, spec_from_rib_happy(*value)) {
                (Ok(d), Ok(t)) => spec_details_match(d, t),
                (Err(e), Err(m)) => e@ == m,
                _ => false,
            }),
    {
        match value {
            TypedValue::Str(raw_path) => Self::make_from(raw_path.clone(), None, None),
            TypedValue::Record(fields) => {
                let path_key = String::from_str("file-path");
                match find_field(fields, &path_key) {
                    None => Err(String::from_str("missing file-path field")),
                    Some(pv) => match pv {
                        TypedValue::Str(path) => {
                            let status_key = String::from_str("status");
                            let status: Option<u16> = match find_field(fields, &status_key) {
                                None => None,
                                Some(sv) => match get_status_code(sv) {
                                    Some(c) => Some(c),
                                    None => {
                                        let mut m = String::from_str("invalid status code: ");
                                        let rendered = to_json_string(sv);
                                        m.append(rendered.as_str());
                                        return Err(m);
                                    },
                                },
                            };
                            let headers_key = String::from_str("headers");
                            let mime_arg: Option<String> = match find_field(fields,
                                &headers_key) {
                                None => None,
                                Some(hv) => match ResolvedResponseHeaders::from_typed_value(
                                    hv) {
                                    Err(e) => {
                                        return Err(e);
                                    },
                                    Ok(h) => match h.get_content_type() {
                                        Some(ct) => Some(ct.value),
                                        None => None,
                                    },
                                },
                            };
                            Self::make_from(path.clone(), mime_arg, status)
                        },
                        _ => {
                            let mut m = String::from_str(
                                "'file-server' must provide a string path, but evaluated to '");
                            let rendered = to_json_string(pv);
                            m.append(rendered.as_str());
                            m.append("'");
                            return Err(m);
                        },
                    },
                }
            },
            _ => Err(String::from_str("response value expected")),
        }
    }

    /// Assembles details from a path, an optional explicit MIME value,
    /// and an optional status code.
    pub fn make_from(path: String, mime_type: Option<String>, status_code: Option<u16>) -> (r:
        Result<FileServerBindingDetails, String>)
        ensures
            (match (r, spec_make_from(path@, spec_opt_chars(mime_type), status_code)) {
                (Ok(d), Ok(t)) => spec_details_match(d, t),
                (Err(e), Err(m)) => e@ == m,
                _ => false,
            }),
    {
        let file_path = match InitialComponentFilePath::from_either_str(path.as_str()) {
            Ok(p) => p,
            Err(e) => {
                return Err(e);
            },
        };
        let ct: ContentType = match mime_type {
            Some(m) => match ContentType::parse(m.as_str()) {
                Some(c) => c,
                None => {
                    let mut msg = String::from_str("Invalid mime type: ");
                    msg.append(m.as_str());
                    return Err(msg);
                },
            },
            None => match ContentType::guess_from_path(path.as_str()) {
                Some(c) => c,
                None => {
                    return Err(String::from_str("Could not determine mime type"));
                },
            },
        };
        let status: u16 = match status_code {
            Some(c) => c,
            None => 200,
        };
        Ok(FileServerBindingDetails { mime_type: ct, status_code: status, file_path })
    }
}

/// A descriptor as the delivery engine reads it: (path, key,
/// permission).
pub type FilesView = Seq<(Seq<char>, Seq<char>, FilePermission)>;

/// The descriptors of `fs`, as plain values.
pub open spec fn spec_files_view(fs: Seq<InitialComponentFile>) -> FilesView {
    Seq::new(fs.len(), |i: int| (fs[i].path@, fs[i].key.0@, fs[i].permissions))
}

/// An in-memory registry of component metadata by exact (component,
/// version) pair.
pub struct ComponentService {
    components: Vec<(VersionedComponentId, ComponentMetadata)>,
}

impl View for ComponentService {
    type V = Seq<(VersionedComponentId, FilesView)>;

    closed spec fn view(&self) -> Seq<(VersionedComponentId, FilesView)> {
        Seq::new(self.components@.len(), |i: int|
            (self.components@[i].0, spec_files_view(self.components@[i].1.files@)),
        )
    }
}

/// The metadata registered for `id`, searching from `i`.
pub open spec fn spec_component_lookup_from(
    s: Seq<(VersionedComponentId, FilesView)>,
    id: VersionedComponentId,
    i: int,
) -> Option<FilesView>
    decreases s.len() - i,
{
    if i < 0 || i >= s.len() {
        None
    } else if s[i].0 == id {
        Some(s[i].1)
    } else {
        spec_component_lookup_from(s, id, i + 1)
    }
}

/// The metadata registered for `id`.
pub open spec fn spec_component_lookup(
    s: Seq<(VersionedComponentId, FilesView)>,
    id: VersionedComponentId,
) -> Option<FilesView> {
    spec_component_lookup_from(s, id, 0)
}

impl ComponentService {
    /// An empty registry.
    pub fn new() -> (r: ComponentService)
        ensures
            r@ == Seq::<(VersionedComponentId, FilesView)>::empty(),
    {
        let r = ComponentService { components: Vec::new() };
        proof {
            assert(r@ =~= Seq::<(VersionedComponentId, FilesView)>::empty());
        }
        r
    }

    /// Registers the metadata of one component version.
    pub fn register(&mut self, id: VersionedComponentId, metadata: ComponentMetadata)
        ensures
            final(self)@ == old(self)@.push((id, spec_files_view(metadata.files@))),
    {
        let ghost orig = self@;
        self.components.push((id, metadata));
        proof {
            assert(self@ =~= orig.push((self.components@.last().0, spec_files_view(
                self.components@.last().1.files@))));
        }
    }

    /// The metadata for the exact (component id, version) pair.
    pub fn get_by_version<'a>(&'a self, id: &VersionedComponentId) -> (r: Option<
        &'a ComponentMetadata,
    >)
        ensures
            (match (r, spec_component_lookup(self@, *id)) {
                (Some(m), Some(f)) => spec_files_view(m.files@) == f,
                (None, None) => true,
                _ => false,
            }),
    {
        let mut i: usize = 0;
        while i < self.components.len()
            invariant
                i <= self.components@.len(),
                spec_component_lookup(self@, *id) == spec_component_lookup_from(self@, *id,
                    i as int),
            decreases self.components@.len() - i,
        {
            if self.components[i].0 == *id {
                return Some(&self.components[i].1);
            }
            i = i + 1;
        }
        None
    }
}

/// The key of the first read-only descriptor whose path equals `path`,
/// searching from `i`.
pub open spec fn spec_find_read_only_from(files: FilesView, path: Seq<char>, i: int) -> Option<
    Seq<char>,
>
    decreases files.len() - i,
{
    if i < 0 || i >= files.len() {
        None
    } else if files[i].0 == path && files[i].2 is ReadOnly {
        Some(files[i].1)
    } else {
        spec_find_read_only_from(files, path, i + 1)
    }
}

/// The key of the first read-only descriptor whose path equals `path`.
pub open spec fn spec_find_read_only(files: FilesView, path: Seq<char>) -> Option<Seq<char>> {
    spec_find_read_only_from(files, path, 0)
}

/// Searches the descriptors for a read-only file at `path`.
pub fn find_read_only<'a>(files: &'a Vec<InitialComponentFile>, path: &String) -> (r: Option<
    &'a InitialComponentFileKey,
>)
    ensures
        (match (r, spec_find_read_only(spec_files_view(files@), path@)) {
            (Some(k), Some(sk)) => k.0@ == sk,
            (None, None) => true,
            _ => false,
        }),
{
    let ghost fv = spec_files_view(files@);
    let mut i: usize = 0;
    while i < files.len()
        invariant
            i <= files@.len(),
            fv == spec_files_view(files@),
            spec_find_read_only(fv, path@) == spec_find_read_only_from(fv, path@, i as int),
        decreases files@.len() - i,
    {
        let is_read_only = match files[i].permissions {
            FilePermission::ReadOnly => true,
            FilePermission::ReadWrite => false,
        };
        if is_read_only && *files[i].path.as_string() == *path {
            return Some(&files[i].key);
        }
        i = i + 1;
    }
    None
}

/// Whether `c` may appear in a worker name: letters, digits, '-', '_'
/// and '.'.
pub open spec fn spec_worker_name_char(c: char) -> bool {
    ||| 48 <= c as u32 <= 57
    ||| 65 <= c as u32 <= 90
    ||| 97 <= c as u32 <= 122
    ||| c == '-' || c == '_' || c == '.'
}

/// The worker naming grammar: 1 to 100 characters, each a letter, a
/// digit, '-', '_' or '.'.
pub open spec fn spec_valid_worker_name(s: Seq<char>) -> bool {
    &&& 0 < s.len() <= 100
    &&& forall|i: int| 0 <= i < s.len() ==> spec_worker_name_char(#[trigger] s[i])
}

/// Checks a worker name against the naming grammar.
pub fn valid_worker_name(s: &str) -> (r: bool)
    ensures
        r == spec_valid_worker_name(s@),
{
    let n: usize = s.unicode_len();
    if n == 0 || n > 100 {
        return false;
    }
    let mut i: usize = 0;
    while i < n
        invariant
            n == s@.len(),
            i <= n,
            forall|j: int| 0 <= j < i ==> spec_worker_name_char(#[trigger] s@[j]),
        decreases n - i,
    {
        let c = s.get_char(i);
        let u: u32 = c as u32;
        let ok = (48 <= u && u <= 57) || (65 <= u && u <= 90) || (97 <= u && u <= 122)
            || c == '-' || c == '_' || c == '.';
        if !ok {
            return false;
        }
        i = i + 1;
    }
    true
}

/// The stable fallback worker name for a file path: a fixed prefix
/// followed by the content hash of the path's UTF-8 bytes, so that
/// every request for the same path derives the same name.
pub open spec fn spec_fallback_worker_name(path: Seq<char>) -> Seq<char> {
    "files-"@ + spec_content_hash(encode_utf8(path))
}

/// Derives the stable fallback worker name for `path`.
pub fn fallback_worker_name(path: &String) -> (r: String)
    ensures
        r@ == spec_fallback_worker_name(path@),
{
    let bytes = path.as_str().as_bytes_vec();
    let hash = content_hash_hex(bytes.as_slice());
    let mut r = String::from_str("files-");
    r.append(hash.as_str());
    r
}

/// The worker name a request targets: an explicit name is validated
/// against the naming grammar; without one, the stable fallback name
/// for the path is used.
pub open spec fn spec_target_worker_name(detail: WorkerDetail, path: Seq<char>) -> Result<
    Seq<char>,
    Seq<char>,
> {
    match detail.worker_name {
        Some(n) => if spec_valid_worker_name(n@) {
            Ok(n@)
        } else {
            Err("invalid worker name: "@ + n@)
        },
        None => Ok(spec_fallback_worker_name(path)),
    }
}

/// The fallback worker name always satisfies the naming grammar.  The
/// premise — the digest of the path's bytes is 32 bytes long — is what
/// the digest wrapper ensures of every digest it returns.
pub proof fn lemma_fallback_worker_name_valid(path: Seq<char>)
    requires
        crate::hashing::sha256_of(encode_utf8(path)).len() == 32,
    ensures
        spec_valid_worker_name(spec_fallback_worker_name(path)),
{
    reveal_strlit("files-");
    let name = spec_fallback_worker_name(path);
    assert(name.len() == 70);
    lemma_hex_chars_are_hex(crate::hashing::sha256_of(encode_utf8(path)));
    assert forall|i: int| 0 <= i < name.len() implies spec_worker_name_char(
        #[trigger] name[i]) by {
        if i < 6 {
            assert(name[i] == "files-"@[i]);
        } else {
            assert(name[i] == spec_content_hash(encode_utf8(path))[i - 6]);
        }
    }
}

/// Requests without an explicit worker name that share a component and
/// a file path collapse onto one derived worker target, bounding how
/// many worker instances a flood of file requests can spawn.
pub proof fn lemma_shared_fallback_target(d1: WorkerDetail, d2: WorkerDetail, path: Seq<char>)
    requires
        d1.worker_name is None,
        d2.worker_name is None,
        d1.component_id == d2.component_id,
    ensures
        spec_target_worker_name(d1, path) == spec_target_worker_name(d2, path),
{
}

/// A resolved file-server response: either a file to serve, with the
/// record that carried it and a content-type hint, or a record without
/// a `file-path` field, passed through as a standard error response.
#[derive(Debug)]
pub enum FileServerResult {
    Found {
        content: String,
        response_details: Option<TypedValue>,
        mime_hint: Option<ContentType>,
    },
    ErrorResponse(TypedValue),
}

/// A resolved file-server response, as plain values.
pub enum SpecFileServerResult {
    Found {
        content: Seq<char>,
        response_details: Option<TypedValue>,
        mime_hint: Option<Seq<char>>,
    },
    ErrorResponse(TypedValue),
}

/// What `get_file_server_result_internal` makes of an evaluation
/// result: a string or a success-wrapped string is a path; a failure
/// wrapping a string fails with that string; a record with a
/// `file-path` string is a path with details, without one it is a
/// standard error response; anything else is a shape error.
pub open spec fn spec_file_server_result(rr: RibResult) -> Result<
    SpecFileServerResult,
    Seq<char>,
> {
    match rr {
        RibResult::Unit => Err("Response value expected"@),
        RibResult::Val(v) => (match v {
            TypedValue::Str(path) => Ok(SpecFileServerResult::Found {
                content: path@,
                response_details: None,
                mime_hint: spec_guessed_mime(path@),
            }),
            TypedValue::Success(o) => (match o {
                None => Err("ok unset"@),
                Some(b) => (match *b {
                    TypedValue::Str(p) => Ok(SpecFileServerResult::Found {
                        content: p@,
                        response_details: None,
                        mime_hint: spec_guessed_mime(p@),
                    }),
                    _ => Err("'file-server' must provide a string path, but evaluated to '"@
                        + spec_json_chars(*b) + "'"@),
                }),
            }),
            TypedValue::Failure(o) => (match o {
                None => Err("err unset"@),
                Some(b) => (match *b {
                    TypedValue::Str(e) => Err(e@),
                    _ => Err("'file-server' result error must be a string"@),
                }),
            }),
            TypedValue::Record(fields) => (match spec_find_field(fields@, "file-path"@) {
                None => Ok(SpecFileServerResult::ErrorResponse(v)),
                Some(pv) => (match pv {
                    TypedValue::Str(p) => Ok(SpecFileServerResult::Found {
                        content: p@,
                        response_details: Some(v),
                        mime_hint: spec_guessed_mime(p@),
                    }),
                    _ => Err("'file-server' must provide a string path, but evaluated to '"@
                        + spec_json_chars(pv) + "'"@),
                }),
            }),
            _ => Err("Response value expected"@),
        }),
    }
}

/// Resolves an evaluation result into a file-server response, keeping
/// the record that carried the path for response details and guessing
/// a content type from the path's extension.
pub fn get_file_server_result_internal(worker_response: RibResult) -> (r: Result<
    FileServerResult,
    String,
>)
    ensures
        (match (r, spec_file_server_result(worker_response)) {
            (Ok(fr), Ok(sr)) => (match (fr, sr) {
                (FileServerResult::Found { content, response_details, mime_hint },
                    SpecFileServerResult::Found { content: sc, response_details: sd,
                    mime_hint: sh }) => {
                    &&& content@ == sc
                    &&& response_details == sd
                    &&& (match (mime_hint, sh) {
                        (Some(ct), Some(m)) => ct.value@ == m,
                        (None, None) => true,
                        _ => false,
                    })
                },
                (FileServerResult::ErrorResponse(a), SpecFileServerResult::ErrorResponse(b))
                    => a == b,
                _ => false,
            }),
            (Err(e), Err(m)) => e@ == m,
            _ => false,
        }),
{
    let value = match worker_response {
        RibResult::Val(value) => value,
        RibResult::Unit => {
            return Err(String::from_str("Response value expected"));
        },
    };
    match value {
        TypedValue::Str(content) => {
            let mime_hint = ContentType::guess_from_path(content.as_str());
            Ok(FileServerResult::Found { content, response_details: None, mime_hint })
        },
        TypedValue::Success(o) => match o {
            None => Err(String::from_str("ok unset")),
            Some(b) => match *b {
                TypedValue::Str(p) => {
                    let mime_hint = ContentType::guess_from_path(p.as_str());
                    Ok(FileServerResult::Found {
                        content: p,
                        response_details: None,
                        mime_hint,
                    })
                },
                other => {
                    let mut m = String::from_str(
                        "'file-server' must provide a string path, but evaluated to '");
                    let rendered = to_json_string(&other);
                    m.append(rendered.as_str());
                    m.append("'");
                    Err(m)
                },
            },
        },
        TypedValue::Failure(o) => match o {
            None => Err(String::from_str("err unset")),
            Some(b) => match *b {
                TypedValue::Str(e) => Err(e),
                _ => Err(String::from_str("'file-server' result error must be a string")),
            },
        },
        TypedValue::Record(fields) => {
            let path_key = String::from_str("file-path");
            let content_opt: Option<String> = match find_field(&fields, &path_key) {
                None => None,
                Some(pv) => match pv {
                    TypedValue::Str(p) => Some(p.clone()),
                    _ => {
                        let mut m = String::from_str(
                            "'file-server' must provide a string path, but evaluated to '");
                        let rendered = to_json_string(pv);
                        m.append(rendered.as_str());
                        m.append("'");
                        return Err(m);
                    },
                },
            };
            let rec = TypedValue::Record(fields);
            match content_opt {
                None => Ok(FileServerResult::ErrorResponse(rec)),
                Some(content) => {
                    let mime_hint = ContentType::guess_from_path(content.as_str());
                    Ok(FileServerResult::Found {
                        content,
                        response_details: Some(rec),
                        mime_hint,
                    })
                },
            }
        },
        _ => Err(String::from_str("Response value expected")),
    }
}

/// Where the bytes of a served file come from.
#[derive(Debug)]
pub enum FileServerBindingData {
    /// The file sat in a read-only descriptor: its bytes, straight
    /// from the content-addressed blob store.
    Blob(Vec<u8>),
    /// The file belongs to the writable overlay: the caller fetches it
    /// from the one worker instance this identity names.
    WorkerFile { identity: WorkerTargetIdentity, path: InitialComponentFilePath },
}

/// What the delivery engine hands the HTTP layer: the evaluation
/// result it was given, the resolved response parts, and the byte
/// source.
#[derive(Debug)]
pub struct FileServerBindingResult {
    pub original_result: RibResult,
    pub binding_details: FileServerBindingDetails,
    pub data: FileServerBindingData,
}

/// A delivery failure.
#[derive(Debug)]
pub enum FileServerBindingError {
    /// The evaluation result did not resolve into file-serving details.
    Binding(String),
    /// No metadata is registered for the exact (component, version)
    /// pair: a misconfigured binding, fatal for the request.
    ComponentNotFound(VersionedComponentId),
    /// Metadata referenced a blob the store does not hold: a
    /// corrupted-state contract violation, fatal for the request.
    MissingBlob(InitialComponentFileKey),
    /// The route declared a worker name outside the naming grammar.
    InvalidWorkerName(String),
}

/// The byte source of the delivery decision, as plain values.
pub enum SpecDeliverySource {
    FromBlob { bytes: Seq<u8> },
    FromWorker { name: Seq<char> },
}

/// A delivery failure, as plain values.
pub enum SpecDeliveryError {
    Binding(Seq<char>),
    ComponentNotFound(VersionedComponentId),
    MissingBlob(Seq<char>),
    InvalidWorkerName(Seq<char>),
}

/// The delivery decision: resolve the evaluation result, look the
/// component up by exact version, and serve a read-only descriptor
/// match from the blob store — where the metadata references a blob
/// the store lacks, that is fatal — else resolve a worker target for
/// the writable overlay.
pub open spec fn spec_handle(
    components: Seq<(VersionedComponentId, FilesView)>,
    store: StoreView,
    detail: WorkerDetail,
    rr: RibResult,
) -> Result<((Seq<char>, Seq<char>, u16), SpecDeliverySource), SpecDeliveryError> {
    match spec_from_rib(rr) {
        Err(m) => Err(SpecDeliveryError::Binding(m)),
        Ok(t) => (match spec_component_lookup(components, detail.component_id) {
            None => Err(SpecDeliveryError::ComponentNotFound(detail.component_id)),
            Some(files) => (match spec_find_read_only(files, t.0) {
                Some(key) => (match spec_store_find(store, detail.account_id.value@, key) {
                    Some(bytes) => Ok((t, SpecDeliverySource::FromBlob { bytes })),
                    None => Err(SpecDeliveryError::MissingBlob(key)),
                }),
                None => (match spec_target_worker_name(detail, t.0) {
                    Ok(name) => Ok((t, SpecDeliverySource::FromWorker { name })),
                    Err(m) => Err(SpecDeliveryError::InvalidWorkerName(m)),
                }),
            }),
        }),
    }
}

/// The delivery engine: component metadata and the blob store are
/// injected at construction and shared for the application's lifetime.
pub struct DefaultFileServerBindingHandler {
    component_service: ComponentService,
    initial_component_files_service: InitialComponentFilesService,
}

impl DefaultFileServerBindingHandler {
    /// The registered component metadata.
    pub closed spec fn spec_components(&self) -> Seq<(VersionedComponentId, FilesView)> {
        self.component_service@
    }

    /// The blob store contents.
    pub closed spec fn spec_store(&self) -> StoreView {
        self.initial_component_files_service@
    }

    pub fn new(
        component_service: ComponentService,
        initial_component_files_service: InitialComponentFilesService,
    ) -> (r: Self)
        ensures
            r.spec_components() == component_service@,
            r.spec_store() == initial_component_files_service@,
    {
        DefaultFileServerBindingHandler { component_service, initial_component_files_service }
    }

    /// Produces the response parts and byte source for one file
    /// request, deciding between the blob store and a live worker as
    /// `spec_handle` describes.  A read-only descriptor match is
    /// served without resolving any worker target.
    pub fn handle_file_server_binding(
        &self,
        worker_detail: &WorkerDetail,
        original_result: RibResult,
    ) -> (r: Result<FileServerBindingResult, FileServerBindingError>)
        ensures
            (match (r, spec_handle(self.spec_components(), self.spec_store(), *worker_detail,
                original_result)) {
                (Ok(res), Ok((t, source))) => {
                    &&& res.original_result == original_result
                    &&& spec_details_match(res.binding_details, t)
                    &&& (match (res.data, source) {
                        (FileServerBindingData::Blob(b), SpecDeliverySource::FromBlob {
                            bytes }) => b@ == bytes,
                        (FileServerBindingData::WorkerFile { identity, path },
                            SpecDeliverySource::FromWorker { name }) => {
                            &&& identity.component_id == worker_detail.component_id
                            &&& identity.worker_name@ == name
                            &&& path@ == t.0
                        },
                        _ => false,
                    })
                },
                (Err(e), Err(se)) => (match (e, se) {
                    (FileServerBindingError::Binding(m), SpecDeliveryError::Binding(sm)) => m@
                        == sm,
                    (FileServerBindingError::ComponentNotFound(id),
                        SpecDeliveryError::ComponentNotFound(sid)) => id == sid,
                    (FileServerBindingError::MissingBlob(k), SpecDeliveryError::MissingBlob(
                        sk)) => k.0@ == sk,
                    (FileServerBindingError::InvalidWorkerName(m),
                        SpecDeliveryError::InvalidWorkerName(sm)) => m@ == sm,
                    _ => false,
                }),
                _ => false,
            }),
    {
        let details = match FileServerBindingDetails::from_rib(&original_result) {
            Ok(d) => d,
            Err(e) => {
                return Err(FileServerBindingError::Binding(e));
            },
        };
        let metadata = match self.component_service.get_by_version(&worker_detail.component_id)
            {
            Some(m) => m,
            None => {
                return Err(FileServerBindingError::ComponentNotFound(
                    worker_detail.component_id));
            },
        };
        match find_read_only(&metadata.files, details.file_path.as_string()) {
            Some(key) => {
                match self.initial_component_files_service.get(&worker_detail.account_id, key)
                    {
                    Ok(Some(bytes)) => Ok(FileServerBindingResult {
                        original_result,
                        binding_details: details,
                        data: FileServerBindingData::Blob(bytes),
                    }),
                    Ok(None) => Err(FileServerBindingError::MissingBlob(key.clone())),
                    Err(e) => Err(FileServerBindingError::Binding(e)),
                }
            },
            None => {
                let name: String = match &worker_detail.worker_name {
                    Some(n) => {
                        if valid_worker_name(n.as_str()) {
                            n.clone()
                        } else {
                            let mut m = String::from_str("invalid worker name: ");
                            m.append(n.as_str());
                            return Err(FileServerBindingError::InvalidWorkerName(m));
                        }
                    },
                    None => fallback_worker_name(details.file_path.as_string()),
                };
                let identity = WorkerTargetIdentity {
                    component_id: worker_detail.component_id,
                    worker_name: name,
                };
                let worker_path = details.file_path.clone();
                Ok(FileServerBindingResult {
                    original_result,
                    binding_details: details,
                    data: FileServerBindingData::WorkerFile { identity, path: worker_path },
                })
            },
        }
    }
}

} // verus!
