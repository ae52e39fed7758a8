//! Keys of the virtual file store.

use vstd::prelude::*;

verus! {

/// Identifies a virtual file: an optional package namespace plus a
/// path.  Equality is structural; two keys with the same namespace and
/// path always denote the same slot of the file store.
pub struct FileKey {
    pub namespace: Option<String>,
    pub path: String,
}

/// The mathematical value of a `FileKey`: both components as character
/// sequences.
#[verifier::ext_equal]
pub struct FileKeyView {
    pub namespace: Option<Seq<char>>,
    pub path: Seq<char>,
}

impl View for FileKey {
    type V = FileKeyView;

    open spec fn view(&self) -> FileKeyView {
        FileKeyView {
            namespace: match self.namespace {
                Some(ns) => Some(ns@),
                None => None,
            },
            path: self.path@,
        }
    }
}

impl FileKey {
    pub fn new(namespace: Option<String>, path: String) -> (r: FileKey)
        ensures
            r.namespace == namespace,
            r.path == path,
    {
        FileKey { namespace, path }
    }

    /// An exact copy of the key.
    pub fn dup(&self) -> (r: FileKey)
        ensures
            r == *self,
    {
        FileKey {
            namespace: match &self.namespace {
                Some(ns) => Some(ns.clone()),
                None => None,
            },
            path: self.path.clone(),
        }
    }

    /// Structural equality: same namespace and same path.
    pub fn key_eq(&self, other: &FileKey) -> (r: bool)
        ensures
            r == (self@ == other@),
    {
        let ns_eq = match (&self.namespace, &other.namespace) {
            (Some(a), Some(b)) => a.eq(b),
            (None, None) => true,
            _ => false,
        };
        let r = ns_eq && self.path == other.path;
        proof {
            if r {
                assert(self@ =~= other@);
            }
        }
        r
    }
}

} // verus!
