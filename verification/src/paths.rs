//! Path validation and derivation.  Paths are handled as plain strings
//! with `/` as the separator; the engine forwards caller-supplied paths
//! to external processes, so this module is the sole defense against
//! relative paths and parent-directory traversal.

use vstd::prelude::*;
use vstd::string::StringExecFns;
use crate::errors::PdfEngineError;
use crate::text::push_char;

verus! {

/// A path is absolute when it starts with the separator.
pub open spec fn is_absolute_path(s: Seq<char>) -> bool {
    s.len() > 0 && s[0] == '/'
}

/// A `..` path component starts at position `i`: two dots bounded by
/// separators or by the ends of the string.
pub open spec fn dotdot_at(s: Seq<char>, i: int) -> bool {
    &&& 0 <= i
    &&& i + 2 <= s.len()
    &&& s[i] == '.'
    &&& s[i + 1] == '.'
    &&& (i == 0 || s[i - 1] == '/')
    &&& (i + 2 == s.len() || s[i + 2] == '/')
}

/// Whether any component of the path is `..`.
pub open spec fn has_parent_traversal(s: Seq<char>) -> bool {
    exists|i: int| dotdot_at(s, i)
}

/// Reports whether the path contains a `..` component.
pub fn contains_parent_traversal(path: &str) -> (r: bool)
    ensures
        r == has_parent_traversal(path@),
{
    let len = path.unicode_len();
    let mut i: usize = 0;
    while i < len
        invariant
            i <= len,
            len == path@.len(),
            forall|j: int| 0 <= j < i ==> !dotdot_at(path@, j),
        decreases len - i,
    {
        if len >= 2 && i <= len - 2
            && path.get_char(i) == '.'
            && path.get_char(i + 1) == '.'
            && (i == 0 || path.get_char(i - 1) == '/')
            && (i + 2 == len || path.get_char(i + 2) == '/')
        {
            proof {
                assert(dotdot_at(path@, i as int));
            }
            return true;
        }
        proof {
            assert(!dotdot_at(path@, i as int));
        }
        i = i + 1;
    }
    proof {
        assert forall|j: int| !dotdot_at(path@, j) by {
            if 0 <= j < len {
                assert(!dotdot_at(path@, j));
            }
        }
    }
    false
}

/// Accepts a caller-supplied path only when it is absolute and free of
/// `..` components; the accepted path is returned unchanged.
pub fn validate_user_path(path: &str) -> (r: Result<String, PdfEngineError>)
    ensures
        r matches Ok(p) <==> (is_absolute_path(path@) && !has_parent_traversal(path@)),
        r matches Ok(p) ==> p@ == path@,
        !is_absolute_path(path@) ==> (r matches Err(e)
            && e matches PdfEngineError::Security(m) && m@ == "path must be absolute"@),
        is_absolute_path(path@) && has_parent_traversal(path@) ==> (r matches Err(e)
            && e matches PdfEngineError::Security(m) && m@ == "path traversal not allowed"@),
{
    let len = path.unicode_len();
    if len == 0 || path.get_char(0) != '/' {
        return Err(PdfEngineError::Security(String::from_str("path must be absolute")));
    }
    if contains_parent_traversal(path) {
        return Err(PdfEngineError::Security(String::from_str("path traversal not allowed")));
    }
    Ok(path.to_owned())
}

/// The length of the path once trailing separators are stripped; a
/// single leading separator is never stripped.
pub open spec fn stripped_len(s: Seq<char>) -> int
    decreases s.len(),
{
    if s.len() > 1 && s.last() == '/' {
        stripped_len(s.drop_last())
    } else {
        s.len() as int
    }
}

pub proof fn lemma_stripped_len_bounds(s: Seq<char>)
    ensures
        0 <= stripped_len(s) <= s.len(),
        s.len() > 0 ==> stripped_len(s) >= 1,
    decreases s.len(),
{
    if s.len() > 1 && s.last() == '/' {
        lemma_stripped_len_bounds(s.drop_last());
    }
}

fn stripped_end(s: &str) -> (end: usize)
    ensures
        end == stripped_len(s@),
{
    let len = s.unicode_len();
    proof {
        assert(s@.subrange(0, len as int) =~= s@);
    }
    let mut end = len;
    while end > 1 && s.get_char(end - 1) == '/'
        invariant
            end <= len,
            len == s@.len(),
            len > 0 ==> end >= 1,
            len == 0 ==> end == 0,
            stripped_len(s@) == stripped_len(s@.subrange(0, end as int)),
        decreases end,
    {
        proof {
            assert(s@.subrange(0, end as int).drop_last() =~= s@.subrange(0, end - 1 as int));
        }
        end = end - 1;
    }
    proof {
        let t = s@.subrange(0, end as int);
        if end > 1 {
            assert(t.last() == s@[end - 1]);
        }
        assert(stripped_len(t) == end as int);
    }
    end
}

/// The largest index of a separator below `n`, or `-1` when there is none.
pub open spec fn last_slash_in(s: Seq<char>, n: int) -> int
    decreases n,
{
    if n <= 0 {
        -1
    } else if s[n - 1] == '/' {
        n - 1
    } else {
        last_slash_in(s, n - 1)
    }
}

proof fn lemma_last_slash_in(s: Seq<char>, n: int, j: int)
    requires
        -1 <= j < n,
        j >= 0 ==> s[j] == '/',
        forall|m: int| j < m < n ==> s[m] != '/',
    ensures
        last_slash_in(s, n) == j,
    decreases n,
{
    if n > 0 {
        if s[n - 1] == '/' {
            assert(j == n - 1);
        } else {
            lemma_last_slash_in(s, n - 1, j);
        }
    }
}

fn find_last_slash(s: &str, end: usize) -> (r: Option<usize>)
    requires
        end <= s@.len(),
    ensures
        match r {
            Some(j) => j < end && s@[j as int] == '/' && last_slash_in(s@, end as int) == j as int,
            None => last_slash_in(s@, end as int) == -1,
        },
{
    let mut j = end;
    while j > 0
        invariant
            j <= end <= s@.len(),
            forall|m: int| j <= m < end ==> s@[m] != '/',
        decreases j,
    {
        if s.get_char(j - 1) == '/' {
            proof {
                lemma_last_slash_in(s@, end as int, j - 1 as int);
            }
            return Some(j - 1);
        }
        j = j - 1;
    }
    proof {
        lemma_last_slash_in(s@, end as int, -1);
    }
    None
}

/// The parent of a path, mirroring how operating systems treat trailing
/// separators: `None` for the root and for the empty path, the empty
/// string for a bare file name, otherwise everything before the last
/// separator of the stripped path.
pub open spec fn parent_path(s: Seq<char>) -> Option<Seq<char>> {
    let n = stripped_len(s);
    let j = last_slash_in(s, n);
    if n == 0 {
        Option::None
    } else if n == 1 && s[0] == '/' {
        Option::None
    } else if j == -1 {
        Option::Some(Seq::empty())
    } else if j == 0 {
        Option::Some(seq!['/'])
    } else {
        Option::Some(s.subrange(0, stripped_len(s.subrange(0, j))))
    }
}

/// Computes the parent directory of a path.
pub fn parent_of(path: &str) -> (r: Option<String>)
    ensures
        match r {
            Some(p) => parent_path(path@) matches Option::Some(q) && p@ == q,
            None => parent_path(path@) is None,
        },
{
    let end = stripped_end(path);
    proof {
        lemma_stripped_len_bounds(path@);
    }
    if end == 0 {
        return None;
    }
    if end == 1 && path.get_char(0) == '/' {
        return None;
    }
    match find_last_slash(path, end) {
        Option::None => Some(String::new()),
        Option::Some(j) => {
            if j == 0 {
                let mut root = String::new();
                push_char(&mut root, '/');
                proof {
                    assert(root@ =~= seq!['/']);
                }
                Some(root)
            } else {
                let head = path.substring_char(0, j);
                let cut = stripped_end(head);
                proof {
                    lemma_stripped_len_bounds(head@);
                    assert(head@ == path@.subrange(0, j as int));
                }
                let trimmed = head.substring_char(0, cut);
                Some(trimmed.to_owned())
            }
        },
    }
}

/// The file-name component of a path: the text after the last separator
/// of the stripped path; `None` for the root, the empty path, and for
/// the `.` and `..` components.
pub open spec fn base_name_of(s: Seq<char>) -> Option<Seq<char>> {
    let n = stripped_len(s);
    let j = last_slash_in(s, n);
    let b = s.subrange(j + 1, n);
    if n == 0 {
        Option::None
    } else if b.len() == 0 {
        Option::None
    } else if b == "."@ || b == ".."@ {
        Option::None
    } else {
        Option::Some(b)
    }
}

/// The largest index of a dot below `n`, or `-1` when there is none.
pub open spec fn last_dot_in(s: Seq<char>, n: int) -> int
    decreases n,
{
    if n <= 0 {
        -1
    } else if s[n - 1] == '.' {
        n - 1
    } else {
        last_dot_in(s, n - 1)
    }
}

proof fn lemma_last_dot_in(s: Seq<char>, n: int, j: int)
    requires
        -1 <= j < n,
        j >= 0 ==> s[j] == '.',
        forall|m: int| j < m < n ==> s[m] != '.',
    ensures
        last_dot_in(s, n) == j,
    decreases n,
{
    if n > 0 {
        if s[n - 1] == '.' {
            assert(j == n - 1);
        } else {
            lemma_last_dot_in(s, n - 1, j);
        }
    }
}

/// The file stem: the base name cut at its last dot, except that a dot
/// in the leading position does not separate an extension.
pub open spec fn file_stem_of(s: Seq<char>) -> Option<Seq<char>> {
    match base_name_of(s) {
        Option::None => Option::None,
        Option::Some(b) => {
            let k = last_dot_in(b, b.len() as int);
            if k >= 1 {
                Option::Some(b.subrange(0, k))
            } else {
                Option::Some(b)
            }
        },
    }
}

fn find_last_dot(s: &str) -> (r: Option<usize>)
    ensures
        match r {
            Some(j) => j < s@.len() && s@[j as int] == '.' && last_dot_in(s@, s@.len() as int) == j as int,
            None => last_dot_in(s@, s@.len() as int) == -1,
        },
{
    let end = s.unicode_len();
    let mut j = end;
    while j > 0
        invariant
            j <= end == s@.len(),
            forall|m: int| j <= m < end ==> s@[m] != '.',
        decreases j,
    {
        if s.get_char(j - 1) == '.' {
            proof {
                lemma_last_dot_in(s@, end as int, j - 1 as int);
            }
            return Some(j - 1);
        }
        j = j - 1;
    }
    proof {
        lemma_last_dot_in(s@, end as int, -1);
    }
    None
}

/// Extracts the file-name component of a path, or `None` where the path
/// has none.
pub fn base_name(path: &str) -> (r: Option<String>)
    ensures
        match r {
            Some(b) => base_name_of(path@) matches Option::Some(q) && b@ == q,
            None => base_name_of(path@) is None,
        },
{
    let end = stripped_end(path);
    proof {
        lemma_stripped_len_bounds(path@);
    }
    if end == 0 {
        return None;
    }
    let start = match find_last_slash(path, end) {
        Option::None => 0,
        Option::Some(j) => j + 1,
    };
    let b = path.substring_char(start, end);
    proof {
        assert(b@ == path@.subrange(start as int, end as int));
    }
    if b.unicode_len() == 0 {
        return None;
    }
    let owned = b.to_owned();
    if owned == String::from_str(".") || owned == String::from_str("..") {
        return None;
    }
    Some(owned)
}

/// The default name of a derived artifact: the input's file stem, an
/// underscore, and the fixed suffix.
pub open spec fn output_name_of(input: Seq<char>, suffix: Seq<char>) -> Option<Seq<char>> {
    match file_stem_of(input) {
        Option::None => Option::None,
        Option::Some(stem) => Option::Some(stem + seq!['_'] + suffix),
    }
}

/// Derives a collision-resistant default output file name from the
/// input's base name plus a fixed suffix.
pub fn deterministic_output_name(input: &str, suffix: &str) -> (r: Result<String, PdfEngineError>)
    ensures
        r matches Ok(name) <==> output_name_of(input@, suffix@) is Some,
        r matches Ok(name) ==> output_name_of(input@, suffix@) matches Option::Some(q) && name@ == q,
        r matches Err(e) ==> e matches PdfEngineError::InvalidInput(m) && m@ == "invalid filename"@,
{
    match base_name(input) {
        Option::None => Err(PdfEngineError::InvalidInput(String::from_str("invalid filename"))),
        Option::Some(b) => {
            let stem = match find_last_dot(b.as_str()) {
                Option::Some(k) if k >= 1 => {
                    let cut = b.as_str().substring_char(0, k);
                    cut.to_owned()
                },
                _ => b,
            };
            let mut name = stem;
            push_char(&mut name, '_');
            name.append(suffix);
            Ok(name)
        },
    }
}

/// Turns caller-supplied text into an owned path string, unchanged.
pub fn normalize_path(path: &str) -> (r: String)
    ensures
        r@ == path@,
{
    path.to_owned()
}

/// Component-wise path prefix on canonical paths: equal, or the base is
/// the root, or the candidate continues the base at a separator.
pub open spec fn path_prefix(base: Seq<char>, cand: Seq<char>) -> bool {
    ||| base == cand
    ||| (base == seq!['/'] && cand.len() > 0 && cand[0] == '/')
    ||| (cand.len() > base.len() && cand.subrange(0, base.len() as int) == base && cand[base.len() as int] == '/')
}

/// Decides whether `cand` lies below `base`, component-wise.
pub fn is_path_prefix(base: &str, cand: &str) -> (r: bool)
    ensures
        r == path_prefix(base@, cand@),
{
    let blen = base.unicode_len();
    let clen = cand.unicode_len();
    if blen == 1 && base.get_char(0) == '/' && clen > 0 && cand.get_char(0) == '/' {
        proof {
            assert(base@ =~= seq!['/']);
        }
        return true;
    }
    if blen == clen {
        let r = base.to_owned() == cand.to_owned();
        proof {
            if !r {
                assert(base@ != seq!['/'] || cand@ != seq!['/'] || base@ == cand@);
            }
        }
        return r;
    }
    if clen > blen {
        let head = cand.substring_char(0, blen);
        if head.to_owned() == base.to_owned() && cand.get_char(blen) == '/' {
            return true;
        }
        proof {
            if base@ == seq!['/'] {
                assert(cand@.subrange(0, 1) =~= seq![cand@[0]]);
            }
        }
        return false;
    }
    proof {
        if base@ == seq!['/'] {
            assert(blen == 1);
        }
    }
    false
}

/// Relies on std::path::Path::canonicalize: resolves a path against the
/// file system to an absolute, symlink-free form; returns `None` where
/// resolution fails or the result is not valid text.  The outcome
/// depends on the state of the disk, so nothing further is promised.
#[verifier::external_body]
fn canonical_of(path: &str) -> (r: Option<String>) {
    match std::path::Path::new(path).canonicalize() {
        Ok(p) => p.to_str().map(|s| s.to_owned()),
        Err(_) => None,
    }
}

/// Reports whether `candidate` resolves to a location at or below
/// `base`.  Both paths are canonicalized against the file system, so the
/// outcome depends on the disk; the prefix decision itself is
/// `is_path_prefix` on the canonical forms, and the answer is `false`
/// whenever either path fails to resolve.
pub fn is_allowed_path(base: &str, candidate: &str) -> bool {
    let b = canonical_of(base);
    let c = canonical_of(candidate);
    match (b, c) {
        (Option::Some(bp), Option::Some(cp)) => is_path_prefix(bp.as_str(), cp.as_str()),
        _ => false,
    }
}

/// The directories the engine works in, all below one data directory.
#[derive(Debug)]
pub struct EnginePaths {
    pub data_dir: String,
    pub jobs_dir: String,
    pub output_dir: String,
    pub audit_dir: String,
}

impl EnginePaths {
    /// Lays the engine's working directories out below a data directory.
    pub fn from_data_dir(data_dir: &str) -> (r: EnginePaths)
        ensures
            r.data_dir@ == data_dir@,
            r.jobs_dir@ == data_dir@ + "/pdf_engine/jobs"@,
            r.output_dir@ == data_dir@ + "/pdf_engine/outputs"@,
            r.audit_dir@ == data_dir@ + "/pdf_engine/audit"@,
    {
        EnginePaths {
            data_dir: data_dir.to_owned(),
            jobs_dir: data_dir.to_owned().concat("/pdf_engine/jobs"),
            output_dir: data_dir.to_owned().concat("/pdf_engine/outputs"),
            audit_dir: data_dir.to_owned().concat("/pdf_engine/audit"),
        }
    }
}

} // verus!
