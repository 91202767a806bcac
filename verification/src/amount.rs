//! The rule for the amount field: what a user may have typed so far.

use vstd::prelude::*;

verus! {

/// An ASCII decimal digit.
pub open spec fn is_digit(c: char) -> bool {
    '0' <= c && c <= '9'
}

/// Every character of `s` is a decimal digit.
pub open spec fn all_digits(s: Seq<char>) -> bool {
    forall|k: int| 0 <= k < s.len() ==> is_digit(#[trigger] s[k])
}

/// `s` is a run of digits up to `i`, then a decimal point if `j == i + 1`
/// (nothing if `j == i`), then a run of digits from `j` to the end.
pub open spec fn splits_as_amount(s: Seq<char>, i: int, j: int) -> bool {
    &&& 0 <= i <= j <= s.len()
    &&& j <= i + 1
    &&& all_digits(s.subrange(0, i))
    &&& (j == i + 1 ==> s[i] == '.')
    &&& all_digits(s.subrange(j, s.len() as int))
}

/// The grammar of the amount field: an optional run of digits, an optional
/// single decimal point, an optional run of digits, and nothing else.
pub open spec fn is_amount_prefix(s: Seq<char>) -> bool {
    exists|i: int, j: int| splits_as_amount(s, i, j)
}

/// A character that is neither a digit nor a decimal point rules the
/// whole string out.
proof fn lemma_stray_character(s: Seq<char>, b: int)
    requires
        0 <= b < s.len(),
        !is_digit(s[b]),
        s[b] != '.',
    ensures
        !is_amount_prefix(s),
{
    assert forall|i: int, j: int| !splits_as_amount(s, i, j) by {
        if splits_as_amount(s, i, j) {
            if b < i {
                assert(s.subrange(0, i)[b] == s[b]);
            } else if b >= j {
                assert(s.subrange(j, s.len() as int)[b - j] == s[b]);
            }
        }
    }
}

/// Two decimal points rule the whole string out.
proof fn lemma_second_point(s: Seq<char>, p: int, q: int)
    requires
        0 <= p < q < s.len(),
        s[p] == '.',
        s[q] == '.',
    ensures
        !is_amount_prefix(s),
{
    assert forall|i: int, j: int| !splits_as_amount(s, i, j) by {
        if splits_as_amount(s, i, j) {
            if p < i {
                assert(s.subrange(0, i)[p] == s[p]);
            } else if p >= j {
                assert(s.subrange(j, s.len() as int)[p - j] == s[p]);
            }
            if q < i {
                assert(s.subrange(0, i)[q] == s[q]);
            } else if q >= j {
                assert(s.subrange(j, s.len() as int)[q - j] == s[q]);
            }
        }
    }
}

/// Decides whether `candidate` may stand in the amount field.
pub fn is_valid_prefix(candidate: &str) -> (ok: bool)
    ensures
        ok == is_amount_prefix(candidate@),
{
    let mut seen_point = false;
    let mut ok = true;
    let ghost mut point_at: int = 0;
    for c in it: candidate.chars()
        invariant
            it.seq() == candidate@,
            ok && !seen_point ==> forall|k: int| 0 <= k < it.index() ==> is_digit(candidate@[k]),
            ok && seen_point ==> 0 <= point_at < it.index() && candidate@[point_at] == '.'
                && forall|k: int| 0 <= k < it.index() && k != point_at ==> is_digit(candidate@[k]),
            !ok ==> !is_amount_prefix(candidate@),
    {
        assert(c == candidate@[it.index()]);
        if c == '.' {
            if seen_point {
                proof {
                    if ok {
                        lemma_second_point(candidate@, point_at, it.index());
                    }
                }
                ok = false;
            } else {
                seen_point = true;
                proof {
                    point_at = it.index();
                }
            }
        } else if !(c >= '0' && c <= '9') {
            proof {
                lemma_stray_character(candidate@, it.index());
            }
            ok = false;
        }
    }
    proof {
        let s = candidate@;
        if ok {
            if seen_point {
                assert(splits_as_amount(s, point_at, point_at + 1));
            } else {
                assert(splits_as_amount(s, s.len() as int, s.len() as int));
            }
        }
    }
    ok
}

} // verus!
