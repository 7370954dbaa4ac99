//! The values handed back to callers, and the metadata snapshot used for
//! diagnostics.
use vstd::prelude::*;

verus! {

/// A file read into memory: its path, its text and its display name.
#[derive(Debug)]
pub struct FileInfo {
    pub path: String,
    pub content: String,
    pub name: String,
}

/// The outcome of a save. Failures travel as an error message instead, so a
/// value of this type reports success.
#[derive(Debug)]
pub struct SaveResult {
    pub success: bool,
    pub error: Option<String>,
}

impl SaveResult {
    /// The outcome of a save that wrote the file.
    pub fn saved() -> (r: SaveResult)
        ensures
            r.success,
            r.error is None,
    {
        SaveResult { success: true, error: None }
    }
}

/// How a platform describes who may touch a file: POSIX mode bits, or a
/// read-only flag elsewhere.
#[derive(Clone, Copy, Debug, PartialEq, Eq, Structural)]
pub enum Permissions {
    Mode(u32),
    ReadOnly(bool),
}

/// The octal digit for `d < 8`.
pub open spec fn octal_digit(d: nat) -> char {
    if d == 0 { '0' }
    else if d == 1 { '1' }
    else if d == 2 { '2' }
    else if d == 3 { '3' }
    else if d == 4 { '4' }
    else if d == 5 { '5' }
    else if d == 6 { '6' }
    else { '7' }
}

/// `n` written in base eight, without leading zeros.
pub open spec fn octal(n: nat) -> Seq<char>
    decreases n,
{
    if n < 8 {
        seq![octal_digit(n)]
    } else {
        octal(n / 8) + seq![octal_digit(n % 8)]
    }
}

/// The text that describes `p`: the permission bits of a mode in octal, or
/// `readonly: <flag>`.
pub open spec fn permissions_text(p: Permissions) -> Seq<char> {
    match p {
        Permissions::Mode(m) => octal((m % 512) as nat),
        Permissions::ReadOnly(b) => if b { "readonly: true"@ } else { "readonly: false"@ },
    }
}

fn push_octal_digit(s: &mut String, d: u32)
    requires
        d < 8,
    ensures
        final(s)@ == old(s)@ + seq![octal_digit(d as nat)],
{
    let t = if d == 0 { "0" }
        else if d == 1 { "1" }
        else if d == 2 { "2" }
        else if d == 3 { "3" }
        else if d == 4 { "4" }
        else if d == 5 { "5" }
        else if d == 6 { "6" }
        else { "7" };
    proof {
        reveal_strlit("0");
        reveal_strlit("1");
        reveal_strlit("2");
        reveal_strlit("3");
        reveal_strlit("4");
        reveal_strlit("5");
        reveal_strlit("6");
        reveal_strlit("7");
    }
    assert(t@ =~= seq![octal_digit(d as nat)]);
    s.append(t);
}

impl Permissions {
    /// The text that describes these permissions.
    pub fn describe(&self) -> (r: String)
        ensures
            r@ == permissions_text(*self),
    {
        match *self {
            Permissions::Mode(m) => {
                let bits = m % 512;
                let mut s = String::new();
                let high = bits / 64;
                let mid = (bits / 8) % 8;
                let low = bits % 8;
                proof {
                    let n = bits as nat;
                    assert(n / 8 / 8 == high as nat);
                    assert((n / 8) % 8 == mid as nat);
                    assert(n % 8 == low as nat);
                    reveal_with_fuel(octal, 3);
                }
                if bits >= 64 {
                    push_octal_digit(&mut s, high);
                }
                if bits >= 8 {
                    push_octal_digit(&mut s, mid);
                }
                push_octal_digit(&mut s, low);
                proof {
                    let n = bits as nat;
                    if n >= 64 {
                        assert(octal(n / 8 / 8) == seq![octal_digit(high as nat)]);
                    }
                    if n >= 8 {
                        assert(n / 8 >= 8 <==> n >= 64);
                    }
                }
                assert(s@ =~= permissions_text(*self));
                s
            },
            Permissions::ReadOnly(b) => {
                if b {
                    String::from_str("readonly: true")
                } else {
                    String::from_str("readonly: false")
                }
            },
        }
    }
}

/// A snapshot of a file's metadata, taken for diagnostics only.
#[derive(Debug)]
pub struct FileMetadata {
    pub size: u64,
    pub permissions: Option<String>,
    pub modified: Option<String>,
    pub is_file: bool,
}

impl FileMetadata {
    /// A snapshot whose permissions are described by `permissions`.
    pub fn new(size: u64, permissions: Permissions, modified: Option<String>, is_file: bool) -> (r: FileMetadata)
        ensures
            r.size == size,
            r.permissions is Some,
            r.permissions->Some_0@ == permissions_text(permissions),
            r.modified == modified,
            r.is_file == is_file,
    {
        FileMetadata { size, permissions: Some(permissions.describe()), modified, is_file }
    }

    /// Whether the size on disk is the number of bytes that were written.
    pub fn size_matches(&self, written: usize) -> (r: bool)
        ensures
            r == (self.size as int == written as int),
    {
        self.size as u128 == written as u128
    }
}

} // verus!
