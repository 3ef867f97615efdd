//! Pure computations on path strings.
//!
//! Full paths are canonical: absolute, `/`-separated, without `.` or `..`
//! components and without a trailing separator.
use vstd::prelude::*;

verus! {

/// Index of the last occurrence of `c` among the first `n` characters of `p`,
/// or -1 if there is none.
pub open spec fn last_index_of(p: Seq<char>, c: char, n: int) -> int
    decreases n,
{
    if n <= 0 {
        -1
    } else if p[n - 1] == c {
        n - 1
    } else {
        last_index_of(p, c, n - 1)
    }
}

/// The parent of a canonical path: everything before its last separator,
/// `/` for a top-level path, and nothing for the root or a path without a
/// separator.
pub open spec fn parent_path(p: Seq<char>) -> Option<Seq<char>> {
    let i = last_index_of(p, '/', p.len() as int);
    if i < 0 {
        None
    } else if i == 0 {
        if p.len() == 1 {
            None
        } else {
            Some(p.subrange(0, 1))
        }
    } else {
        Some(p.subrange(0, i))
    }
}

/// Where a link whose own path is `link` and whose text is `text` points:
/// an absolute text as it stands, a relative one taken from the directory
/// that holds the link.
pub open spec fn target_of_link(link: Seq<char>, text: Seq<char>) -> Seq<char> {
    if text.len() > 0 && text[0] == '/' {
        text
    } else {
        link.subrange(0, last_index_of(link, '/', link.len() as int) + 1) + text
    }
}

proof fn lemma_last_index_bounds(p: Seq<char>, c: char, n: int)
    requires
        0 <= n <= p.len(),
    ensures
        -1 <= last_index_of(p, c, n) < n,
        last_index_of(p, c, n) >= 0 ==> p[last_index_of(p, c, n)] == c,
    decreases n,
{
    if n > 0 && p[n - 1] != c {
        lemma_last_index_bounds(p, c, n - 1);
    }
}

/// Finds the last `/` in `s`, scanning from the end.
fn last_separator(s: &str) -> (r: Option<usize>)
    ensures
        s@.len() <= usize::MAX,
        match r {
            Some(i) => i < s@.len() && i as int == last_index_of(s@, '/', s@.len() as int),
            None => last_index_of(s@, '/', s@.len() as int) == -1,
        },
{
    let n = s.unicode_len();
    let mut k: usize = n;
    while k > 0
        invariant
            k <= n,
            n == s@.len(),
            last_index_of(s@, '/', n as int) == last_index_of(s@, '/', k as int),
        decreases k,
    {
        if s.get_char(k - 1) == '/' {
            return Some(k - 1);
        }
        k = k - 1;
    }
    None
}

/// The parent of the canonical path `p`, or `None` for the root.
pub fn parent_of(p: &str) -> (r: Option<String>)
    ensures
        match r {
            Some(q) => parent_path(p@) == Some(q@),
            None => parent_path(p@) is None,
        },
{
    proof {
        lemma_last_index_bounds(p@, '/', p@.len() as int);
    }
    match last_separator(p) {
        None => None,
        Some(i) => {
            if i == 0 {
                if p.unicode_len() == 1 {
                    None
                } else {
                    Some(String::from_str(p.substring_char(0, 1)))
                }
            } else {
                Some(String::from_str(p.substring_char(0, i)))
            }
        },
    }
}

/// The path that a link at `link` with text `text` points to.
pub fn link_target_path(link: &str, text: &str) -> (r: String)
    ensures
        r@ == target_of_link(link@, text@),
{
    if text.unicode_len() > 0 && text.get_char(0) == '/' {
        return String::from_str(text);
    }
    proof {
        lemma_last_index_bounds(link@, '/', link@.len() as int);
    }
    let end: usize = match last_separator(link) {
        Some(i) => i + 1,
        None => 0,
    };
    let mut r = String::from_str(link.substring_char(0, end));
    r.append(text);
    r
}

} // verus!
