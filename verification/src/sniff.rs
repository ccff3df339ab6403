//! Detection of a file's type from its leading bytes.

use vstd::prelude::*;

verus! {

/// A detected file type: its MIME type and the extension that goes with it.
pub struct FileKind {
    pub mime_type: String,
    pub extension: String,
}

impl FileKind {
    /// The pair of MIME type and extension.
    pub open spec fn pair(&self) -> (Seq<char>, Seq<char>) {
        (self.mime_type@, self.extension@)
    }
}

/// The MIME type and the extension that `infer::get` finds for a buffer, if
/// it recognises one. What it recognises is a fixed table of signatures in
/// that crate, so the answer depends on the bytes alone.
pub uninterp spec fn sniffed_kind(content: Seq<u8>) -> Option<(Seq<char>, Seq<char>)>;

/// The pair that a detection result stands for.
pub open spec fn kind_pair(kind: Option<FileKind>) -> Option<(Seq<char>, Seq<char>)> {
    match kind {
        Some(k) => Some(k.pair()),
        None => None,
    }
}

/// Calls `infer::get` on the buffer and copies `mime_type()` and
/// `extension()` of the type it returns. Trusted: the result is the one that
/// `sniffed_kind` names for these bytes.
#[verifier::external_body]
pub(crate) fn sniff(content: &Vec<u8>) -> (kind: Option<FileKind>)
    ensures
        kind_pair(kind) == sniffed_kind(content@),
{
    match infer::get(content) {
        Some(found) => Some(
            FileKind {
                mime_type: found.mime_type().to_string(),
                extension: found.extension().to_string(),
            },
        ),
        None => None,
    }
}

} // verus!
