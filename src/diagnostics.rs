//! Classification of I/O failures and the messages built from them.
use vstd::prelude::*;

verus! {

/// The kinds of I/O failure that the diagnostics tell apart; every other
/// kind is `Other`.
#[derive(Clone, Copy, Debug, PartialEq, Eq, Structural)]
pub enum IoErrorKind {
    NotFound,
    PermissionDenied,
    InvalidInput,
    InvalidData,
    WriteZero,
    UnexpectedEof,
    OutOfMemory,
    Other,
}

/// A failed filesystem call, as plain values: its kind, the name of the
/// kind as the operating system layer reports it, and its description.
#[derive(Debug)]
pub struct IoFailure {
    pub kind: IoErrorKind,
    pub kind_name: String,
    pub description: String,
}

impl IoFailure {
    pub fn new(kind: IoErrorKind, kind_name: String, description: String) -> (r: IoFailure)
        ensures
            r.kind == kind,
            r.kind_name@ == kind_name@,
            r.description@ == description@,
    {
        IoFailure { kind, kind_name, description }
    }

    /// Whether the failure is of no known kind, which on a write may mean
    /// that the disk is full.
    pub fn may_be_disk_full(&self) -> (r: bool)
        ensures
            r == (self.kind == IoErrorKind::Other),
    {
        self.kind == IoErrorKind::Other
    }
}

/// The human-readable label of each kind.
pub open spec fn kind_label(kind: IoErrorKind) -> Seq<char> {
    match kind {
        IoErrorKind::NotFound => "文件不存在"@,
        IoErrorKind::PermissionDenied => "权限被拒绝"@,
        IoErrorKind::InvalidInput => "无效的输入"@,
        IoErrorKind::InvalidData => "无效的数据"@,
        IoErrorKind::WriteZero => "写入零字节"@,
        IoErrorKind::UnexpectedEof => "意外的文件结束"@,
        IoErrorKind::OutOfMemory => "内存不足"@,
        IoErrorKind::Other => "未知错误"@,
    }
}

/// The label of `kind`.
pub fn label_of(kind: IoErrorKind) -> (r: &'static str)
    ensures
        r@ == kind_label(kind),
{
    match kind {
        IoErrorKind::NotFound => "文件不存在",
        IoErrorKind::PermissionDenied => "权限被拒绝",
        IoErrorKind::InvalidInput => "无效的输入",
        IoErrorKind::InvalidData => "无效的数据",
        IoErrorKind::WriteZero => "写入零字节",
        IoErrorKind::UnexpectedEof => "意外的文件结束",
        IoErrorKind::OutOfMemory => "内存不足",
        IoErrorKind::Other => "未知错误",
    }
}

/// The detailed diagnostic line for a failure of `operation` on `path`:
/// `[operation] path - label (kind: kind_name, raw: description)`.
pub open spec fn context_message(operation: Seq<char>, path: Seq<char>, error: IoFailure) -> Seq<char> {
    "["@ + operation + "] "@ + path + " - "@ + kind_label(error.kind) + " (kind: "@
        + error.kind_name@ + ", raw: "@ + error.description@ + ")"@
}

/// Formats the diagnostic line for a failure of `operation` on `path`.
pub fn format_error_with_context(operation: &str, path: &str, error: &IoFailure) -> (r: String)
    ensures
        r@ == context_message(operation@, path@, *error),
{
    let mut s = String::from_str("[");
    s.append(operation);
    s.append("] ");
    s.append(path);
    s.append(" - ");
    s.append(label_of(error.kind));
    s.append(" (kind: ");
    s.append(error.kind_name.as_str());
    s.append(", raw: ");
    s.append(error.description.as_str());
    s.append(")");
    s
}

/// The short message shown to a user: `prefix` followed by the description
/// of the failure.
pub open spec fn user_message(prefix: Seq<char>, error: IoFailure) -> Seq<char> {
    prefix + error.description@
}

/// Builds the short message shown to a user.
pub fn format_user_message(prefix: &str, error: &IoFailure) -> (r: String)
    ensures
        r@ == user_message(prefix@, *error),
{
    let mut s = String::from_str(prefix);
    s.append(error.description.as_str());
    s
}

} // verus!
