//! Character-level scanning primitives shared by the classifier and the
//! configuration parser.

use vstd::prelude::*;

verus! {

/// The characters of `s` strictly before the first occurrence of `c`, or all
/// of `s` when `c` does not occur.
pub open spec fn prefix_to(s: Seq<char>, c: char) -> Seq<char>
    decreases s.len(),
{
    if s.len() == 0 {
        Seq::empty()
    } else if s[0] == c {
        Seq::empty()
    } else {
        seq![s[0]] + prefix_to(s.skip(1), c)
    }
}

/// When the characters before index `j` avoid `c`, and `j` is the end of `s`
/// or the position of a `c`, the prefix before the first `c` is `s.take(j)`.
pub proof fn lemma_prefix_to_take(s: Seq<char>, c: char, j: int)
    requires
        0 <= j <= s.len(),
        forall|k: int| 0 <= k < j ==> s[k] != c,
        j == s.len() || s[j] == c,
    ensures
        prefix_to(s, c) == s.take(j),
    decreases j,
{
    if j == 0 {
        assert(prefix_to(s, c) =~= s.take(0));
    } else {
        assert(s[0] != c);
        assert(forall|k: int| 0 <= k < j - 1 ==> #[trigger] s.skip(1)[k] != c);
        lemma_prefix_to_take(s.skip(1), c, j - 1);
        assert(seq![s[0]] + s.skip(1).take(j - 1) =~= s.take(j));
    }
}

/// The index of the first occurrence of `c` in `s` at or after `from`, or
/// the length of `s` when there is none.
pub(crate) fn find_char(s: &str, from: usize, c: char) -> (found: usize)
    requires
        from <= s@.len(),
    ensures
        from <= found <= s@.len(),
        forall|k: int| from <= k < found ==> s@[k] != c,
        found < s@.len() ==> s@[found as int] == c,
{
    let n = s.unicode_len();
    let mut i = from;
    while i < n && s.get_char(i) != c
        invariant
            from <= i <= n,
            n == s@.len(),
            forall|k: int| from <= k < i ==> s@[k] != c,
        decreases n - i,
    {
        i = i + 1;
    }
    i
}

} // verus!
