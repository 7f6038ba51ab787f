use vstd::prelude::*;
use vstd::string::*;

use crate::reply::ReplyRelation;

verus! {

pub open spec fn command_text() -> Seq<char> {
    "!ipfs"@
}

pub open spec fn occurs_at(s: Seq<char>, p: Seq<char>, i: int) -> bool {
    0 <= i && i + p.len() <= s.len() && s.subrange(i, i + p.len()) == p
}

pub open spec fn contains_text(s: Seq<char>, p: Seq<char>) -> bool {
    exists|i: int| #[trigger] occurs_at(s, p, i)
}

/// Whether `pattern` occurs in `text`.
pub fn contains(text: &str, pattern: &str) -> (r: bool)
    ensures
        r == contains_text(text@, pattern@),
{
    let n = text.unicode_len();
    let m = pattern.unicode_len();
    if m > n {
        assert forall|i: int| !occurs_at(text@, pattern@, i) by {}
        return false;
    }
    let mut i: usize = 0;
    while i <= n - m
        invariant
            n == text@.len(),
            m == pattern@.len(),
            m <= n,
            i <= n - m + 1,
            forall|j: int| 0 <= j < i ==> !occurs_at(text@, pattern@, j),
        decreases n - m + 1 - i,
    {
        let mut k: usize = 0;
        while k < m && text.get_char(i + k) == pattern.get_char(k)
            invariant
                n == text@.len(),
                m == pattern@.len(),
                i + m <= n,
                k <= m,
                forall|j: int| 0 <= j < k ==> text@[i + j] == pattern@[j],
            decreases m - k,
        {
            k = k + 1;
        }
        if k == m {
            assert(text@.subrange(i as int, i + m) =~= pattern@);
            assert(occurs_at(text@, pattern@, i as int));
            return true;
        }
        assert(text@.subrange(i as int, i + m)[k as int] != pattern@[k as int]);
        i = i + 1;
    }
    assert forall|j: int| !occurs_at(text@, pattern@, j) by {
        if 0 <= j && j + m <= n {
            assert(j < i);
        }
    }
    false
}

/// A message asks for a relay when its text holds the command and it replies
/// to another event.
pub fn is_trigger(body: &str, relates_to: &Option<ReplyRelation>) -> (r: bool)
    ensures
        r == (contains_text(body@, command_text()) && relates_to is Some),
{
    relates_to.is_some() && contains(body, "!ipfs")
}

} // verus!
