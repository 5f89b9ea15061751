//! Splitting a comma-separated list, as the port option is split: tokens are
//! taken literally, with no trimming, and an empty input yields one empty token.
use vstd::prelude::*;

verus! {

/// The index of the first comma in `s` at or after `i`, or `s.len()` if there
/// is none.
pub open spec fn next_comma(s: Seq<char>, i: int) -> int
    decreases s.len() - i,
{
    if i >= s.len() {
        s.len() as int
    } else if s[i] == ',' {
        i
    } else {
        next_comma(s, i + 1)
    }
}

proof fn lemma_next_comma_bounds(s: Seq<char>, i: int)
    ensures
        next_comma(s, i) >= i || next_comma(s, i) == s.len(),
        next_comma(s, i) <= s.len(),
    decreases s.len() - i,
{
    if i < s.len() && s[i] != ',' {
        lemma_next_comma_bounds(s, i + 1);
    }
}

#[via_fn]
proof fn split_from_decreases(s: Seq<char>, i: int) {
    lemma_next_comma_bounds(s, i);
}

/// The comma-separated tokens of `s[i..]`.
pub open spec fn split_from(s: Seq<char>, i: int) -> Seq<Seq<char>>
    recommends
        0 <= i <= s.len(),
    decreases s.len() - i,
        via split_from_decreases
{
    let j = next_comma(s, i);
    if j >= s.len() {
        seq![s.subrange(i, s.len() as int)]
    } else {
        seq![s.subrange(i, j)] + split_from(s, j + 1)
    }
}

/// The comma-separated tokens of `s`.
pub open spec fn split_commas_view(s: Seq<char>) -> Seq<Seq<char>> {
    split_from(s, 0)
}

proof fn lemma_next_comma_exact(s: Seq<char>, start: int, i: int)
    requires
        0 <= start <= i <= s.len(),
        forall|k: int| start <= k < i ==> s[k] != ',',
        i < s.len() ==> s[i] == ',',
    ensures
        next_comma(s, start) == i,
    decreases i - start,
{
    if start < i {
        lemma_next_comma_exact(s, start + 1, i);
    }
}

/// Split `s` at every comma, literally, keeping empty tokens.
pub fn split_commas(s: &str) -> (r: Vec<String>)
    ensures
        crate::text::views(r@) == split_commas_view(s@),
{
    let len = s.unicode_len();
    let mut out: Vec<String> = Vec::new();
    let mut start: usize = 0;
    let mut i: usize = 0;
    while i < len
        invariant
            0 <= start <= i <= len,
            len == s@.len(),
            forall|k: int| start <= k < i ==> s@[k] != ',',
            crate::text::views(out@) + split_from(s@, start as int) =~= split_commas_view(s@),
        decreases len - i,
    {
        if s.get_char(i) == ',' {
            let tok = s.substring_char(start, i).to_owned();
            proof {
                lemma_next_comma_exact(s@, start as int, i as int);
                assert(split_from(s@, start as int) =~= seq![s@.subrange(start as int, i as int)]
                    + split_from(s@, i + 1));
            }
            out.push(tok);
            proof {
                assert(crate::text::views(out@) + split_from(s@, i + 1) =~= split_commas_view(
                    s@,
                ));
            }
            start = i + 1;
        }
        i = i + 1;
    }
    let tok = s.substring_char(start, len).to_owned();
    proof {
        lemma_next_comma_exact(s@, start as int, len as int);
        assert(split_from(s@, start as int) =~= seq![s@.subrange(start as int, len as int)]);
    }
    out.push(tok);
    proof {
        assert(crate::text::views(out@) =~= split_commas_view(s@));
    }
    out
}

} // verus!
