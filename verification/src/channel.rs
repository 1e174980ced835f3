//! Channel classification: a request path's channel is its first
//! '/'-separated segment.

use vstd::prelude::*;
use crate::text::{find_char, lemma_prefix_to_take, prefix_to};

verus! {

/// The channel of a request path: the second element when the path is split
/// on '/' (the characters between the first '/' and the next '/' or the
/// end), or the empty sequence when the path holds no '/' at all.
pub open spec fn channel_of(path: Seq<char>) -> Seq<char>
    decreases path.len(),
{
    if path.len() == 0 {
        Seq::empty()
    } else if path[0] == '/' {
        prefix_to(path.skip(1), '/')
    } else {
        channel_of(path.skip(1))
    }
}

proof fn lemma_channel_of_slash(path: Seq<char>, i: int)
    requires
        0 <= i < path.len(),
        forall|k: int| 0 <= k < i ==> path[k] != '/',
        path[i] == '/',
    ensures
        channel_of(path) == prefix_to(path.skip(i + 1), '/'),
    decreases i,
{
    if i > 0 {
        assert(forall|k: int| 0 <= k < i - 1 ==> #[trigger] path.skip(1)[k] != '/');
        lemma_channel_of_slash(path.skip(1), i - 1);
        assert(path.skip(1).skip(i) =~= path.skip(i + 1));
    }
}

proof fn lemma_channel_of_no_slash(path: Seq<char>)
    requires
        forall|k: int| 0 <= k < path.len() ==> path[k] != '/',
    ensures
        channel_of(path) == Seq::<char>::empty(),
    decreases path.len(),
{
    if path.len() > 0 {
        lemma_channel_of_no_slash(path.skip(1));
    }
}

/// Extracts the channel name from a request path: the first segment after
/// the leading '/', or the empty string for a path with fewer than two
/// '/'-separated pieces (such as the root path).
pub fn get_channel(path: &str) -> (channel: String)
    ensures
        channel@ == channel_of(path@),
{
    let n = path.unicode_len();
    let i = find_char(path, 0, '/');
    if i == n {
        proof {
            lemma_channel_of_no_slash(path@);
        }
        String::new()
    } else {
        let j = find_char(path, i + 1, '/');
        let segment = path.substring_char(i + 1, j);
        proof {
            lemma_channel_of_slash(path@, i as int);
            assert(forall|k: int| 0 <= k < j - (i + 1) ==> #[trigger] path@.skip(i + 1)[k] != '/');
            lemma_prefix_to_take(path@.skip(i + 1), '/', j - (i + 1));
            assert(path@.skip(i + 1).take(j - (i + 1)) =~= path@.subrange(i + 1, j as int));
        }
        segment.to_owned()
    }
}

} // verus!
