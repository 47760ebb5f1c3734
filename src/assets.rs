//! Content types of the bundled static pages, whose file names end in the
//! page's own extension followed by the extension of its compression
//! (`paste.html.zstd`).

use vstd::prelude::*;
use crate::text::spells;

verus! {

/// The position of the last `.` in `s` before position `p`, or -1.
pub open spec fn last_dot_before(s: Seq<char>, p: int) -> int
    decreases p,
{
    if p <= 0 {
        -1
    } else if s[p - 1] == '.' {
        p - 1
    } else {
        last_dot_before(s, p - 1)
    }
}

/// The second-to-last `.`-separated part of `name`: for `a.html.zstd`,
/// `html`. `None` when the name holds no `.`.
pub open spec fn inner_extension(name: Seq<char>) -> Option<Seq<char>> {
    let last = last_dot_before(name, name.len() as int);
    if last < 0 {
        None
    } else {
        Some(name.subrange(last_dot_before(name, last) + 1, last))
    }
}

/// The content type served for a bundled page with this file name.
pub open spec fn static_type(name: Seq<char>) -> Option<Seq<char>> {
    match inner_extension(name) {
        Some(ext) => if ext == "html"@ {
            Some("text/html; charset=UTF-8"@)
        } else if ext == "css"@ {
            Some("text/css"@)
        } else {
            None
        },
        None => None,
    }
}

proof fn lemma_last_dot_bounds(s: Seq<char>, p: int)
    requires
        0 <= p <= s.len(),
    ensures
        -1 <= last_dot_before(s, p) < p,
        last_dot_before(s, p) >= 0 ==> s[last_dot_before(s, p)] == '.',
    decreases p,
{
    if p > 0 && s[p - 1] != '.' {
        lemma_last_dot_bounds(s, p - 1);
    }
}

/// Finds the last `.` of `name` before position `p`.
fn find_last_dot(name: &str, n: usize, p: usize) -> (r: Option<usize>)
    requires
        n == name@.len(),
        p <= n,
    ensures
        r is None ==> last_dot_before(name@, p as int) == -1,
        r matches Some(i) ==> last_dot_before(name@, p as int) == i as int,
{
    let mut q: usize = p;
    while q > 0
        invariant
            q <= p <= n == name@.len(),
            last_dot_before(name@, p as int) == last_dot_before(name@, q as int),
        decreases q,
    {
        if name.get_char(q - 1) == '.' {
            return Some(q - 1);
        }
        q = q - 1;
    }
    None
}

/// The content type to serve a bundled page with, from its file name:
/// HTML for `*.html.*`, CSS for `*.css.*`; `None` for any other name.
pub fn type_from_name(name: &str) -> (r: Option<&'static str>)
    ensures
        r matches Some(t) ==> static_type(name@) == Some(t@),
        r is None ==> static_type(name@) is None,
{
    let n = name.unicode_len();
    proof {
        lemma_last_dot_bounds(name@, n as int);
    }
    match find_last_dot(name, n, n) {
        None => None,
        Some(last) => {
            proof {
                lemma_last_dot_bounds(name@, last as int);
            }
            let start = match find_last_dot(name, n, last) {
                Some(i) => i + 1,
                None => 0,
            };
            if spells(name, start, last, "html") {
                Some("text/html; charset=UTF-8")
            } else if spells(name, start, last, "css") {
                Some("text/css")
            } else {
                None
            }
        },
    }
}

} // verus!
