//! Decides which files qualify for deletion: old enough, and not excluded
//! by any case-insensitive name pattern.

use vstd::prelude::*;

use crate::text::contains_substring;
use crate::text::is_substring;
use crate::FileWithModifiedTime;
use crate::SECS_IN_A_DAY;

verus! {

/// The characters of `s` folded to lower case, as `str::to_lowercase` folds them.
pub uninterp spec fn lower_of(s: Seq<char>) -> Seq<char>;

/// Trusted call into `str::to_lowercase`. Unicode case folding is too wide to
/// restate here; `lower_of` names the result, which is a function of the
/// input characters alone.
#[verifier::external_body]
fn lowercase(s: &str) -> (r: String)
    ensures
        r@ == lower_of(s@),
{
    s.to_lowercase()
}

/// The file's age, measured at `now_secs`, is at least `age_days` whole days.
/// A modification time in the future (clock skew) never counts as old enough.
pub open spec fn old_enough(modified_secs: u64, now_secs: u64, age_days: u64) -> bool {
    &&& modified_secs <= now_secs
    &&& (now_secs - modified_secs) / (SECS_IN_A_DAY as int) >= age_days
}

/// `pattern` occurs in `name` when both are folded to lower case.
pub open spec fn pattern_blocks(name: Seq<char>, pattern: Seq<char>) -> bool {
    is_substring(lower_of(pattern), lower_of(name))
}

/// A file qualifies for deletion when it is old enough and no skip pattern
/// occurs in its name (case-insensitively). With no patterns, age decides alone.
pub open spec fn spec_eligible(
    file: FileWithModifiedTime,
    now_secs: u64,
    age_days: u64,
    skip: Seq<String>,
) -> bool {
    &&& old_enough(file.modified_secs, now_secs, age_days)
    &&& forall|i: int| 0 <= i < skip.len() ==> !#[trigger] pattern_blocks(file.name@, skip[i]@)
}

/// Whether one file qualifies for deletion under the given threshold and
/// skip patterns, judged against the clock reading `now_secs`.
pub fn is_file_ok_to_delete(
    file: &FileWithModifiedTime,
    now_secs: u64,
    age_days: u64,
    skip: &Vec<String>,
) -> (r: bool)
    ensures
        r == spec_eligible(*file, now_secs, age_days, skip@),
{
    if now_secs < file.modified_secs {
        return false;
    }
    if (now_secs - file.modified_secs) / SECS_IN_A_DAY < age_days {
        return false;
    }
    let lname = lowercase(file.name.as_str());
    let mut i: usize = 0;
    while i < skip.len()
        invariant
            lname@ == lower_of(file.name@),
            forall|k: int| 0 <= k < i ==> !#[trigger] pattern_blocks(file.name@, skip@[k]@),
        decreases skip.len() - i,
    {
        let lpat = lowercase(skip[i].as_str());
        if contains_substring(lname.as_str(), lpat.as_str()) {
            proof {
                assert(pattern_blocks(file.name@, skip@[i as int]@));
            }
            return false;
        }
        i += 1;
    }
    true
}

/// The subsequence of `files` that qualifies for deletion, in listing order.
pub open spec fn eligible_files(
    files: Seq<FileWithModifiedTime>,
    now_secs: u64,
    age_days: u64,
    skip: Seq<String>,
) -> Seq<FileWithModifiedTime>
    decreases files.len(),
{
    if files.len() == 0 {
        Seq::empty()
    } else {
        let rest = eligible_files(files.drop_last(), now_secs, age_days, skip);
        if spec_eligible(files.last(), now_secs, age_days, skip) {
            rest.push(files.last())
        } else {
            rest
        }
    }
}

/// Keeps exactly the files that qualify for deletion, in their listing order.
pub fn select_candidates(
    files: Vec<FileWithModifiedTime>,
    now_secs: u64,
    age_days: u64,
    skip: &Vec<String>,
) -> (candidates: Vec<FileWithModifiedTime>)
    ensures
        candidates@ == eligible_files(files@, now_secs, age_days, skip@),
{
    let ghost orig: Seq<FileWithModifiedTime> = files@;
    let mut rest = files;
    let mut candidates: Vec<FileWithModifiedTime> = Vec::new();
    let ghost mut k: int = 0;
    while rest.len() > 0
        invariant
            0 <= k <= orig.len(),
            rest@ == orig.subrange(k, orig.len() as int),
            candidates@ == eligible_files(orig.subrange(0, k), now_secs, age_days, skip@),
        decreases rest.len(),
    {
        let file = rest.remove(0);
        proof {
            assert(file == orig[k]);
            assert(rest@ =~= orig.subrange(k + 1, orig.len() as int));
            assert(orig.subrange(0, k + 1).drop_last() =~= orig.subrange(0, k));
            assert(orig.subrange(0, k + 1).last() == orig[k]);
        }
        if is_file_ok_to_delete(&file, now_secs, age_days, skip) {
            candidates.push(file);
        }
        proof {
            k = k + 1;
        }
    }
    proof {
        assert(orig.subrange(0, orig.len() as int) =~= orig);
    }
    candidates
}

/// The selection is sound and complete: everything selected qualifies and
/// comes from the listing, and everything in the listing that qualifies is
/// selected.
pub proof fn lemma_selection_characterized(
    files: Seq<FileWithModifiedTime>,
    now_secs: u64,
    age_days: u64,
    skip: Seq<String>,
)
    ensures
        forall|i: int|
            0 <= i < eligible_files(files, now_secs, age_days, skip).len() ==> spec_eligible(
                #[trigger] eligible_files(files, now_secs, age_days, skip)[i],
                now_secs,
                age_days,
                skip,
            ) && files.contains(eligible_files(files, now_secs, age_days, skip)[i]),
        forall|i: int|
            0 <= i < files.len() && spec_eligible(#[trigger] files[i], now_secs, age_days, skip)
                ==> eligible_files(files, now_secs, age_days, skip).contains(files[i]),
    decreases files.len(),
{
    if files.len() > 0 {
        let rest = files.drop_last();
        lemma_selection_characterized(rest, now_secs, age_days, skip);
        let e = eligible_files(files, now_secs, age_days, skip);
        let er = eligible_files(rest, now_secs, age_days, skip);
        let last_in = spec_eligible(files.last(), now_secs, age_days, skip);
        assert forall|i: int|
            0 <= i < e.len() implies spec_eligible(e[i], now_secs, age_days, skip)
            && files.contains(e[i]) by {
            if i < er.len() {
                assert(e[i] == er[i]);
                let j = choose|j: int| 0 <= j < rest.len() && rest[j] == er[i];
                assert(files[j] == e[i]);
            } else {
                assert(e[i] == files.last());
                assert(files[files.len() - 1] == e[i]);
            }
        }
        assert forall|i: int|
            0 <= i < files.len() && spec_eligible(#[trigger] files[i], now_secs, age_days, skip)
            implies e.contains(files[i]) by {
            if i < files.len() - 1 {
                assert(rest[i] == files[i]);
                assert(er.contains(files[i]));
                let j = choose|j: int| 0 <= j < er.len() && er[j] == files[i];
                assert(e[j] == files[i]);
            } else {
                assert(last_in);
                assert(e[e.len() - 1] == files[i]);
            }
        }
    }
}

/// A file younger than the threshold is never deleted, whatever the skip
/// patterns say.
pub proof fn lemma_young_file_never_eligible(
    file: FileWithModifiedTime,
    now_secs: u64,
    age_days: u64,
    skip: Seq<String>,
)
    requires
        file.modified_secs <= now_secs,
        (now_secs - file.modified_secs) / (SECS_IN_A_DAY as int) < age_days,
    ensures
        !spec_eligible(file, now_secs, age_days, skip),
{
}

/// A file at or past the threshold is deleted when there are no skip patterns.
pub proof fn lemma_old_file_without_patterns_eligible(
    file: FileWithModifiedTime,
    now_secs: u64,
    age_days: u64,
    skip: Seq<String>,
)
    requires
        file.modified_secs <= now_secs,
        (now_secs - file.modified_secs) / (SECS_IN_A_DAY as int) >= age_days,
        skip.len() == 0,
    ensures
        spec_eligible(file, now_secs, age_days, skip),
{
}

/// A file whose name contains any skip pattern (case-insensitively) is never
/// deleted, however old it is.
pub proof fn lemma_skip_pattern_excludes(
    file: FileWithModifiedTime,
    now_secs: u64,
    age_days: u64,
    skip: Seq<String>,
)
    requires
        exists|i: int| 0 <= i < skip.len() && #[trigger] pattern_blocks(file.name@, skip[i]@),
    ensures
        !spec_eligible(file, now_secs, age_days, skip),
{
}

} // verus!
