//! Counts deletion outcomes and renders the closing report line.

use vstd::prelude::*;

use crate::text::dec_rep;
use crate::text::format_u64;

verus! {

/// How many entries of `s` are true.
pub open spec fn count_true(s: Seq<bool>) -> int
    decreases s.len(),
{
    if s.len() == 0 {
        0
    } else {
        count_true(s.drop_last()) + (if s.last() {
            1int
        } else {
            0int
        })
    }
}

/// Counting trues never exceeds the length.
proof fn lemma_count_true_le_len(s: Seq<bool>)
    ensures
        0 <= count_true(s) <= s.len(),
    decreases s.len(),
{
    if s.len() > 0 {
        lemma_count_true_le_len(s.drop_last());
    }
}

/// The number of successful deletions in a batch: one boolean per attempted
/// file, true where the removal succeeded. A failure on one file leaves the
/// others counted.
pub fn count_successes(results: &Vec<bool>) -> (count: usize)
    ensures
        count == count_true(results@),
{
    let mut count: usize = 0;
    let mut i: usize = 0;
    while i < results.len()
        invariant
            0 <= i <= results@.len(),
            count <= i,
            count == count_true(results@.subrange(0, i as int)),
        decreases results@.len() - i,
    {
        proof {
            assert(results@.subrange(0, i + 1).drop_last() =~= results@.subrange(0, i as int));
            assert(results@.subrange(0, i + 1).last() == results@[i as int]);
        }
        if results[i] {
            count += 1;
        }
        i += 1;
    }
    proof {
        assert(results@.subrange(0, results@.len() as int) =~= results@);
    }
    count
}

/// The closing report line: the count in decimal, then ` File(s) deleted`.
pub fn deletion_report(count: usize) -> (r: String)
    ensures
        r@ == dec_rep(count as int) + " File(s) deleted"@,
{
    let mut s = format_u64(count as u64);
    s.append(" File(s) deleted");
    proof {
        assert(s@ =~= dec_rep(count as int) + " File(s) deleted"@);
    }
    s
}

} // verus!
