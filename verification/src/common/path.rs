//! The final component of a `/`-separated path, as `Path::file_name` reports it on Unix.
use vstd::prelude::*;

use crate::text::{opt_view, slice_string};

verus! {

/// `Path::file_name` on a Unix path, by its characters: trailing `/` and
/// trailing `.` components are ignored, and a final `..` (or nothing at all)
/// has no file name.
pub open spec fn file_name(p: Seq<char>) -> Option<Seq<char>>
    decreases p.len(),
{
    if p.len() == 0 {
        None
    } else if p.last() == '/' {
        file_name(p.drop_last())
    } else if p.last() == '.' && (p.len() == 1 || p[p.len() - 2] == '/') {
        file_name(p.drop_last())
    } else {
        let seg = p.subrange(segment_start(p, p.len() as int), p.len() as int);
        if seg == seq!['.', '.'] {
            None
        } else {
            Some(seg)
        }
    }
}

/// Index just past the last `/` before position `i` (0 when there is none).
pub open spec fn segment_start(p: Seq<char>, i: int) -> int
    decreases i,
{
    if i <= 0 {
        0
    } else if p[i - 1] == '/' {
        i
    } else {
        segment_start(p, i - 1)
    }
}

proof fn lemma_segment_start_bounds(p: Seq<char>, i: int)
    requires
        0 <= i <= p.len(),
    ensures
        0 <= segment_start(p, i) <= i,
    decreases i,
{
    if i > 0 && p[i - 1] != '/' {
        lemma_segment_start_bounds(p, i - 1);
    }
}

proof fn lemma_segment_start_prefix(p: Seq<char>, n: int, i: int)
    requires
        0 <= i <= n <= p.len(),
    ensures
        segment_start(p, i) == segment_start(p.subrange(0, n), i),
    decreases i,
{
    if i > 0 {
        assert(p.subrange(0, n)[i - 1] == p[i - 1]);
        lemma_segment_start_prefix(p, n, i - 1);
    }
}

/// The file name of `path`, when it has one.
pub fn path_file_name(path: &[char]) -> (r: Option<String>)
    ensures
        opt_view(r) == file_name(path@),
{
    let mut n: usize = path.len();
    assert(path@.subrange(0, n as int) == path@);
    loop
        invariant
            n <= path@.len(),
            file_name(path@) == file_name(path@.subrange(0, n as int)),
        decreases n,
    {
        let ghost q = path@.subrange(0, n as int);
        if n == 0 {
            return None;
        }
        if path[n - 1] == '/' || (path[n - 1] == '.' && (n == 1 || path[n - 2] == '/')) {
            assert(q.drop_last() == path@.subrange(0, n - 1));
            n = n - 1;
        } else {
            let mut k: usize = n;
            while k > 0 && path[k - 1] != '/'
                invariant
                    k <= n <= path@.len(),
                    q == path@.subrange(0, n as int),
                    segment_start(q, n as int) == segment_start(q, k as int),
                decreases k,
            {
                assert(q[k - 1] == path@[k - 1]);
                k = k - 1;
            }
            proof {
                if k > 0 {
                    assert(q[k - 1] == path@[k - 1]);
                }
                assert(segment_start(q, k as int) == k);
            }
            let seg = slice_string(path, k, n);
            assert(seg@ == q.subrange(k as int, n as int));
            if n - k == 2 && path[k] == '.' && path[k + 1] == '.' {
                assert(seg@ =~= seq!['.', '.']);
                return None;
            }
            proof {
                if seg@ == seq!['.', '.'] {
                    assert(seg@[0] == path@[k as int]);
                    assert(seg@[1] == path@[k + 1]);
                }
            }
            return Some(seg);
        }
    }
}

} // verus!
