use vstd::prelude::*;

verus! {

/// The two file operations that can fail.
#[derive(Clone, Copy, Debug, PartialEq, Eq, Structural)]
pub enum FileOp {
    Read,
    Write,
}

/// What kind of failure a filesystem call met, for callers that want to
/// tell them apart. The caller-facing message does not depend on it.
#[derive(Clone, Copy, Debug, PartialEq, Eq, Structural)]
pub enum FsErrorKind {
    EmptyPath,
    NotFound,
    PermissionDenied,
    IsADirectory,
    Other,
}

/// A failed file operation: its kind and the text that describes it.
#[derive(Debug)]
pub struct FsError {
    pub kind: FsErrorKind,
    pub detail: String,
}

/// The fixed label that opens every failure message of `op`.
pub open spec fn op_label(op: FileOp) -> Seq<char> {
    match op {
        FileOp::Read => "Failed to read file"@,
        FileOp::Write => "Failed to write file"@,
    }
}

/// The caller-facing message for a failure of `op` described by `detail`.
pub open spec fn failure_text(op: FileOp, detail: Seq<char>) -> Seq<char> {
    op_label(op) + ": "@ + detail
}

/// The description given to a path that is rejected before any call.
pub open spec fn empty_path_detail() -> Seq<char> {
    "path is empty"@
}

impl FileOp {
    /// The label that opens this operation's failure messages.
    pub fn label(&self) -> (r: &'static str)
        ensures
            r@ == op_label(*self),
    {
        match self {
            FileOp::Read => "Failed to read file",
            FileOp::Write => "Failed to write file",
        }
    }
}

impl FsError {
    /// A failure of the given kind, described by `detail`.
    pub fn new(kind: FsErrorKind, detail: String) -> (r: FsError)
        ensures
            r.kind == kind,
            r.detail@ == detail@,
    {
        FsError { kind, detail }
    }

    /// The flat message that a caller of `op` sees for this failure.
    pub fn message(&self, op: FileOp) -> (r: String)
        ensures
            r@ == failure_text(op, self.detail@),
    {
        let mut r = String::from_str(op.label());
        r.append(": ");
        r.append(self.detail.as_str());
        r
    }
}

/// Checks a caller-supplied path before the filesystem is touched: the only
/// path refused is the empty one. Nothing is normalised or resolved.
pub fn check_path(path: &str) -> (r: Result<(), FsError>)
    ensures
        r is Ok <==> path@.len() > 0,
        r matches Err(e) ==> e.kind == FsErrorKind::EmptyPath && e.detail@ == empty_path_detail(),
{
    if path.is_empty() {
        Err(FsError::new(FsErrorKind::EmptyPath, String::from_str("path is empty")))
    } else {
        Ok(())
    }
}

/// Turns what reading a file gave into what the caller receives: the
/// content unchanged, or the flat read-failure message.
pub fn read_outcome(probe: Result<String, FsError>) -> (r: Result<String, String>)
    ensures
        match probe {
            Ok(content) => r matches Ok(c) && c@ == content@,
            Err(e) => r matches Err(m) && m@ == failure_text(FileOp::Read, e.detail@),
        },
{
    match probe {
        Ok(content) => Ok(content),
        Err(e) => Err(e.message(FileOp::Read)),
    }
}

/// Turns what writing a file gave into what the caller receives: success,
/// or the flat write-failure message.
pub fn write_outcome(probe: Result<(), FsError>) -> (r: Result<(), String>)
    ensures
        match probe {
            Ok(()) => r is Ok,
            Err(e) => r matches Err(m) && m@ == failure_text(FileOp::Write, e.detail@),
        },
{
    match probe {
        Ok(()) => Ok(()),
        Err(e) => Err(e.message(FileOp::Write)),
    }
}

/// Whether an entry exists, given what probing the path gave. A probe that
/// failed counts as absence: this never reports an error.
pub fn exists_outcome(probe: Result<bool, FsError>) -> (r: bool)
    ensures
        r == (probe matches Ok(found) && found),
{
    match probe {
        Ok(found) => found,
        Err(_) => false,
    }
}

/// Every failure that reading reports, whatever caused it (a missing file
/// among others), carries the text "Failed to read file".
pub proof fn lemma_read_failure_labelled(detail: Seq<char>)
    ensures
        "Failed to read file"@.is_prefix_of(failure_text(FileOp::Read, detail)),
{
    lemma_failure_labelled(FileOp::Read, detail);
}

/// Every failure that writing reports, whatever caused it (a missing parent
/// directory among others), carries the text "Failed to write file".
pub proof fn lemma_write_failure_labelled(detail: Seq<char>)
    ensures
        "Failed to write file"@.is_prefix_of(failure_text(FileOp::Write, detail)),
{
    lemma_failure_labelled(FileOp::Write, detail);
}

/// A failure message opens with the label of its own operation and not with
/// that of the other, so a read failure never reads as a write failure.
pub proof fn lemma_failure_labelled(op: FileOp, detail: Seq<char>)
    ensures
        op_label(op).is_prefix_of(failure_text(op, detail)),
        forall|other: FileOp|
            other != op ==> !op_label(other).is_prefix_of(#[trigger] failure_text(op, detail)),
{
    reveal_strlit("Failed to read file");
    reveal_strlit("Failed to write file");
    let t = failure_text(op, detail);
    assert(op_label(op) =~= t.subrange(0, op_label(op).len() as int));
    assert forall|other: FileOp| other != op implies !op_label(other).is_prefix_of(
        #[trigger] failure_text(op, detail),
    ) by {
        assert(t[10] == op_label(op)[10]);
        assert(op_label(other)[10] != t[10]);
    }
}

} // verus!
