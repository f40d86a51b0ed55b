use vstd::prelude::*;
use vstd::string::*;

use crate::command::texts;

verus! {

/// The extension, with its dot, that marks instrumentation profile data.
pub open spec fn profile_suffix() -> Seq<char> {
    ".profraw"@
}

/// Whether a file name has the profile-data extension: it ends in
/// `.profraw` after a non-empty stem.
pub open spec fn is_profile_name(name: Seq<char>) -> bool {
    name.len() > profile_suffix().len() && name.subrange(
        name.len() - profile_suffix().len(),
        name.len() as int,
    ) == profile_suffix()
}

/// Whether the file called `name` holds instrumentation profile data.
pub fn is_profile_data(name: &str) -> (r: bool)
    ensures
        r == is_profile_name(name@),
{
    proof {
        reveal_strlit(".profraw");
    }
    let n = name.unicode_len();
    if n <= 8 {
        return false;
    }
    let tail = String::from_str(name.substring_char(n - 8, n));
    tail == String::from_str(".profraw")
}

/// The entries that the cleanup removes: profile data, in listing order.
pub open spec fn stale_spec(entries: Seq<Seq<char>>) -> Seq<Seq<char>> {
    entries.filter(|n: Seq<char>| is_profile_name(n))
}

/// The entries that stay after the cleanup.
pub open spec fn kept_spec(entries: Seq<Seq<char>>) -> Seq<Seq<char>> {
    entries.filter(|n: Seq<char>| !is_profile_name(n))
}

/// Selects, among the names of a directory's entries, the profile-data files
/// left by an earlier run; every other file is left in place.
pub fn stale_profile_files(entries: &Vec<String>) -> (r: Vec<String>)
    ensures
        texts(r@) == stale_spec(texts(entries@)),
{
    let mut r: Vec<String> = Vec::new();
    let mut i: usize = 0;
    while i < entries.len()
        invariant
            i <= entries@.len(),
            texts(r@) == stale_spec(texts(entries@.subrange(0, i as int))),
        decreases entries@.len() - i,
    {
        let ghost before = texts(entries@.subrange(0, i as int));
        assert(texts(entries@.subrange(0, i + 1)) =~= before.push(entries@[i as int]@));
        proof {
            before.lemma_filter_push(entries@[i as int]@, |n: Seq<char>| is_profile_name(n));
        }
        if is_profile_data(entries[i].as_str()) {
            r.push(entries[i].clone());
            assert(texts(r@) =~= stale_spec(before).push(entries@[i as int]@));
        }
        i = i + 1;
    }
    assert(entries@.subrange(0, i as int) =~= entries@);
    r
}

/// What happened when the coverage directory tree was created.
#[derive(Clone, Copy, Debug, PartialEq, Eq, Structural)]
pub enum CreateOutcome {
    Created,
    AlreadyExists,
    Failed,
}

/// What the artifact area needs next.
#[derive(Clone, Copy, Debug, PartialEq, Eq, Structural)]
pub enum PrepareStep {
    /// Remove the stale profile data among the directory's entries.
    RemoveStaleProfiles,
    /// Empty the existing directory, then remove stale profile data.
    ClearContents,
    /// Creating the directory failed: the run stops.
    Abort,
}

/// Decides how to go on after trying to create the coverage directory: an
/// existing directory is emptied rather than treated as an error.
pub fn after_create(outcome: CreateOutcome) -> (r: PrepareStep)
    ensures
        outcome == CreateOutcome::Created ==> r == PrepareStep::RemoveStaleProfiles,
        outcome == CreateOutcome::AlreadyExists ==> r == PrepareStep::ClearContents,
        outcome == CreateOutcome::Failed ==> r == PrepareStep::Abort,
{
    match outcome {
        CreateOutcome::Created => PrepareStep::RemoveStaleProfiles,
        CreateOutcome::AlreadyExists => PrepareStep::ClearContents,
        CreateOutcome::Failed => PrepareStep::Abort,
    }
}

/// Two cleanups in a row, with a file of another kind and a profile-data
/// file dropped into the directory in between: the second cleanup keeps the
/// other file and removes the profile data.
pub proof fn lemma_second_cleanup_keeps_strays(
    entries: Seq<Seq<char>>,
    stray: Seq<char>,
    profile: Seq<char>,
)
    requires
        !is_profile_name(stray),
        is_profile_name(profile),
    ensures
        kept_spec(kept_spec(entries).push(stray).push(profile)).contains(stray),
        !kept_spec(kept_spec(entries).push(stray).push(profile)).contains(profile),
        forall|i: int|
            0 <= i < kept_spec(kept_spec(entries).push(stray).push(profile)).len()
                ==> !is_profile_name(
                #[trigger] kept_spec(kept_spec(entries).push(stray).push(profile))[i],
            ),
{
    let keep = |n: Seq<char>| !is_profile_name(n);
    let first = kept_spec(entries);
    first.lemma_filter_push(stray, keep);
    first.push(stray).lemma_filter_push(profile, keep);
    let second = kept_spec(first.push(stray).push(profile));
    assert(second == first.filter(keep).push(stray));
    assert(second[second.len() - 1] == stray);
    first.lemma_filter_len(keep);
    assert forall|i: int| 0 <= i < second.len() implies !is_profile_name(#[trigger] second[i]) by {
        if i < second.len() - 1 {
            first.lemma_filter_pred(keep, i);
        }
    }
}

} // verus!
