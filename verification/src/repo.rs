//! Deriving the repository name: the last segment of the working
//! directory's path.

use vstd::prelude::*;
use vstd::string::StrSliceExecFns;
use vstd::string::StringExecFns;

verus! {

/// The part of `p` after its last `/`, or all of `p` when it has none.
pub open spec fn last_segment(p: Seq<char>) -> Seq<char>
    decreases p.len(),
{
    if p.len() == 0 {
        p
    } else if p.last() == '/' {
        Seq::empty()
    } else {
        last_segment(p.drop_last()).push(p.last())
    }
}

proof fn lemma_last_segment_skip(p: Seq<char>, i: int)
    requires
        0 <= i <= p.len(),
        forall|j: int| i <= j < p.len() ==> p[j] != '/',
        i == 0 || p[i - 1] == '/',
    ensures
        last_segment(p) == p.skip(i),
    decreases p.len(),
{
    if i == p.len() {
        assert(p.skip(i) =~= Seq::<char>::empty());
        if i == 0 {
            assert(p =~= Seq::<char>::empty());
        }
    } else {
        lemma_last_segment_skip(p.drop_last(), i);
        assert(p.drop_last().skip(i).push(p.last()) =~= p.skip(i));
    }
}

/// The name of the repository: the base name of the working directory's
/// path, splitting on `/`.
pub fn repo_name_from_path(path: &str) -> (r: String)
    ensures
        r@ == last_segment(path@),
{
    let n = path.unicode_len();
    let mut i: usize = n;
    while i > 0 && path.get_char(i - 1) != '/'
        invariant
            i <= n,
            n == path@.len(),
            forall|j: int| i <= j < n ==> path@[j] != '/',
        decreases i,
    {
        i -= 1;
    }
    proof {
        lemma_last_segment_skip(path@, i as int);
        assert(path@.subrange(i as int, n as int) =~= path@.skip(i as int));
    }
    String::from_str(path.substring_char(i, n))
}

} // verus!
