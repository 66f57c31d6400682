//! Domain identifiers and component-file metadata.

use vstd::prelude::*;

verus! {

/// The account a blob namespace belongs to.
#[derive(Debug)]
pub struct AccountId {
    pub value: String,
}

impl Clone for AccountId {
    fn clone(&self) -> (r: Self)
        ensures
            r == *self,
    {
        AccountId { value: self.value.clone() }
    }
}

/// The immutable identity of an initial component file: the lowercase
/// hex SHA-256 digest of its bytes, assigned once when the bytes are
/// first stored and never reassigned.
#[derive(Debug)]
pub struct InitialComponentFileKey(pub String);

impl Clone for InitialComponentFileKey {
    fn clone(&self) -> (r: Self)
        ensures
            r == *self,
    {
        InitialComponentFileKey(self.0.clone())
    }
}

/// `s` as a normalized component file path: component-relative paths
/// get a leading '/'.
pub open spec fn spec_normalize_path(s: Seq<char>) -> Seq<char> {
    if s.len() > 0 && s[0] == '/' {
        s
    } else {
        seq!['/'] + s
    }
}

/// A normalized, absolute component file path.
#[derive(Debug)]
pub struct InitialComponentFilePath {
    path: String,
}

impl View for InitialComponentFilePath {
    type V = Seq<char>;

    closed spec fn view(&self) -> Seq<char> {
        self.path@
    }
}

impl Clone for InitialComponentFilePath {
    fn clone(&self) -> (r: Self)
        ensures
            r == *self,
    {
        InitialComponentFilePath { path: self.path.clone() }
    }
}

impl InitialComponentFilePath {
    /// Normalizes a path given in absolute or component-relative form;
    /// only the empty string is rejected.
    pub fn from_either_str(s: &str) -> (r: Result<InitialComponentFilePath, String>)
        ensures
            (match r {
                Ok(p) => s@.len() > 0 && p@ == spec_normalize_path(s@),
                Err(e) => s@.len() == 0 && e@ == "empty file path"@,
            }),
    {
        let n: usize = s.unicode_len();
        if n == 0 {
            return Err(String::from_str("empty file path"));
        }
        let first = s.get_char(0);
        if first == '/' {
            Ok(InitialComponentFilePath { path: String::from_str(s) })
        } else {
            let mut path = String::from_str("/");
            proof {
                reveal_strlit("/");
                assert(path@ =~= seq!['/']);
            }
            path.append(s);
            Ok(InitialComponentFilePath { path })
        }
    }

    /// The normalized path text.
    pub fn as_string(&self) -> (r: &String)
        ensures
            r@ == self@,
    {
        &self.path
    }
}

/// An opaque component identifier.
#[derive(Clone, Copy, Debug, PartialEq, Eq, Structural)]
pub struct ComponentId {
    pub value: u64,
}

/// A component pinned to an exact version.
#[derive(Clone, Copy, Debug, PartialEq, Eq, Structural)]
pub struct VersionedComponentId {
    pub component_id: ComponentId,
    pub version: u64,
}

/// Whether a deployed component file lives in the immutable blob layer
/// or in a worker's writable overlay.
#[derive(Clone, Copy, Debug, PartialEq, Eq, Structural)]
pub enum FilePermission {
    ReadOnly,
    ReadWrite,
}

/// A component file descriptor: part of a component version's
/// immutable deployment metadata.
#[derive(Debug)]
pub struct InitialComponentFile {
    pub key: InitialComponentFileKey,
    pub path: InitialComponentFilePath,
    pub permissions: FilePermission,
}

impl Clone for InitialComponentFile {
    fn clone(&self) -> (r: Self)
        ensures
            r == *self,
    {
        InitialComponentFile {
            key: self.key.clone(),
            path: self.path.clone(),
            permissions: self.permissions,
        }
    }
}

/// The component metadata the delivery engine consumes: the descriptor
/// list of one component version.
#[derive(Debug)]
pub struct ComponentMetadata {
    pub files: Vec<InitialComponentFile>,
}

/// The worker and route context a file request carries.
#[derive(Debug)]
pub struct WorkerDetail {
    pub component_id: VersionedComponentId,
    pub worker_name: Option<String>,
    pub account_id: AccountId,
}

/// The resolved target of a writable-file request: a component version
/// and the one worker instance that serves it.
#[derive(Debug)]
pub struct WorkerTargetIdentity {
    pub component_id: VersionedComponentId,
    pub worker_name: String,
}

} // verus!
