//! The display name of a file, taken from the last segment of its path.
use vstd::prelude::*;

verus! {

/// The name given to a file whose path has no usable final segment.
pub open spec fn default_name() -> Seq<char> {
    "Untitled.md"@
}

/// How a platform separates the segments of a path.
#[derive(Clone, Copy, Debug, PartialEq, Eq, Structural)]
pub enum PathStyle {
    /// Only `/` separates; a backslash is part of a name.
    Posix,
    /// Both `/` and `\` separate.
    Windows,
}

/// Whether `c` ends a path segment under `style`.
pub open spec fn is_separator(style: PathStyle, c: char) -> bool {
    c == '/' || (style == PathStyle::Windows && c == '\\')
}

/// Index where the final segment of `p` starts: just after its last separator,
/// or 0 when `p` has none.
pub open spec fn final_segment_start(style: PathStyle, p: Seq<char>) -> int
    decreases p.len(),
{
    if p.len() == 0 {
        0
    } else if is_separator(style, p.last()) {
        p.len() as int
    } else {
        final_segment_start(style, p.drop_last())
    }
}

/// The text after the last separator of `p`.
pub open spec fn final_segment(style: PathStyle, p: Seq<char>) -> Seq<char> {
    p.subrange(final_segment_start(style, p), p.len() as int)
}

/// A segment that names a file: not empty, and neither `.` nor `..`.
pub open spec fn is_named_segment(s: Seq<char>) -> bool {
    s.len() > 0 && s != seq!['.'] && s != seq!['.', '.']
}

/// The display name of the file at `p`: its final segment, or the default
/// name where that segment names no file (a root, a trailing separator).
pub open spec fn display_name(style: PathStyle, p: Seq<char>) -> Seq<char> {
    if is_named_segment(final_segment(style, p)) {
        final_segment(style, p)
    } else {
        default_name()
    }
}

/// The final segment starts at `j` when no separator follows `j` and `j` is
/// either the start of `p` or just after a separator.
proof fn lemma_final_segment_start(style: PathStyle, p: Seq<char>, j: int)
    requires
        0 <= j <= p.len(),
        forall|k: int| j <= k < p.len() ==> !is_separator(style, #[trigger] p[k]),
        j == 0 || is_separator(style, p[j - 1]),
    ensures
        final_segment_start(style, p) == j,
    decreases p.len(),
{
    if p.len() > j {
        let q = p.drop_last();
        assert forall|k: int| j <= k < q.len() implies !is_separator(style, #[trigger] q[k]) by {
            assert(q[k] == p[k]);
        }
        if j > 0 {
            assert(q[j - 1] == p[j - 1]);
        }
        lemma_final_segment_start(style, q, j);
    }
}

/// A path that ends in a separator, or is empty, has no final segment and
/// gets the default name.
pub proof fn lemma_no_final_segment_gets_default_name(style: PathStyle, p: Seq<char>)
    requires
        p.len() == 0 || is_separator(style, p.last()),
    ensures
        display_name(style, p) == default_name(),
{
    assert(final_segment(style, p).len() == 0);
}

/// The display name of the file at `path`, whose segments are separated as
/// `style` says.
pub fn file_name(style: PathStyle, path: &str) -> (r: String)
    ensures
        r@ == display_name(style, path@),
{
    let n = path.unicode_len();
    let mut start: usize = n;
    let mut done = false;
    while !done
        invariant
            n == path@.len(),
            start <= n,
            forall|k: int| start <= k < n ==> !is_separator(style, #[trigger] path@[k]),
            done ==> (start == 0 || is_separator(style, path@[start - 1])),
        decreases start + (if done { 0int } else { 1int }),
    {
        if start == 0 {
            done = true;
        } else {
            let c = path.get_char(start - 1);
            if c == '/' || (style == PathStyle::Windows && c == '\\') {
                done = true;
            } else {
                start = start - 1;
            }
        }
    }
    proof {
        lemma_final_segment_start(style, path@, start as int);
    }
    let segment = path.substring_char(start, n);
    let len = n - start;
    let named = if len == 0 {
        false
    } else if len == 1 {
        segment.get_char(0) != '.'
    } else if len == 2 {
        !(segment.get_char(0) == '.' && segment.get_char(1) == '.')
    } else {
        true
    };
    proof {
        let s = segment@;
        if len == 1 && s == seq!['.'] {
            assert(s[0] == '.');
        }
        if len == 2 && s == seq!['.', '.'] {
            assert(s[0] == '.' && s[1] == '.');
        }
        if len == 2 && s[0] == '.' && s[1] == '.' {
            assert(s =~= seq!['.', '.']);
        }
        if len == 1 && s[0] == '.' {
            assert(s =~= seq!['.']);
        }
        assert(named == is_named_segment(s));
    }
    if named {
        String::from_str(segment)
    } else {
        String::from_str("Untitled.md")
    }
}

} // verus!
