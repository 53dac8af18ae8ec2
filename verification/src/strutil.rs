//! Small verified string helpers shared by the URL normalizer and the
//! worktree manager: locating the last occurrence of a character and taking
//! a prefix or suffix of a string.

use vstd::prelude::*;
use vstd::string::*;

verus! {

/// The index of the last occurrence of `c` in `s`, if any.
pub open spec fn last_index_of(s: Seq<char>, c: char) -> Option<int>
    decreases s.len(),
{
    if s.len() == 0 {
        None
    } else if s[s.len() - 1] == c {
        Some(s.len() - 1)
    } else {
        last_index_of(s.drop_last(), c)
    }
}

/// The index of the last occurrence of `c`, or `None` when `s` has none.
pub fn find_last_index(s: &String, c: char) -> (r: Option<usize>)
    ensures
        match r {
            Some(i) => last_index_of(s@, c) == Some(i as int) && i < s@.len(),
            None => last_index_of(s@, c) is None,
        },
{
    let n = s.as_str().unicode_len();
    let mut best: Option<usize> = None;
    let mut i: usize = 0;
    while i < n
        invariant
            i <= n,
            n == s@.len(),
            match best {
                Some(b) => last_index_of(s@.take(i as int), c) == Some(b as int) && b < i,
                None => last_index_of(s@.take(i as int), c) is None,
            },
        decreases n - i,
    {
        let ch = s.as_str().get_char(i);
        proof {
            assert(s@.take(i + 1).drop_last() =~= s@.take(i as int));
            assert(s@.take(i + 1).last() == s@[i as int]);
        }
        if ch == c {
            best = Some(i);
        }
        i = i + 1;
    }
    proof {
        assert(s@.take(n as int) =~= s@);
    }
    best
}

/// The first `n` characters of `s`.
pub fn string_take(s: &String, n: usize) -> (r: String)
    requires
        n <= s@.len(),
    ensures
        r@ == s@.take(n as int),
{
    let cut = s.as_str().substring_char(0, n);
    proof {
        assert(s@.subrange(0, n as int) =~= s@.take(n as int));
    }
    cut.to_owned()
}

/// All but the first `n` characters of `s`.
pub fn string_skip(s: &String, n: usize) -> (r: String)
    requires
        n <= s@.len(),
    ensures
        r@ == s@.skip(n as int),
{
    let len = s.as_str().unicode_len();
    let cut = s.as_str().substring_char(n, len);
    proof {
        assert(s@.subrange(n as int, s@.len() as int) =~= s@.skip(n as int));
    }
    cut.to_owned()
}

} // verus!
