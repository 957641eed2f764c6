//! Finding the directories that a development checkout keeps next to the
//! working directory: the built static assets and the backend's sources.
//!
//! Each directory has a short list of conventional places, relative to the
//! working directory and in order of preference. Whether a place exists is
//! for the surroundings to find out; which one is taken is decided here.

use vstd::prelude::*;
use vstd::string::*;
use crate::spawn::{text_of, texts};

verus! {

/// The places where the built static assets may lie, best first.
pub open spec fn frontend_dist_paths() -> Seq<Seq<char>> {
    seq!["../../../web/frontend/dist"@, "web/frontend/dist"@]
}

/// The places where the backend's sources may lie, best first.
pub open spec fn src_dir_paths() -> Seq<Seq<char>> {
    seq!["../../../src"@, "src"@]
}

/// The first of `candidates` that exists, where `exists[i]` says whether
/// the candidate at `i` does. A candidate without such an entry counts as
/// missing.
pub open spec fn first_existing(candidates: Seq<Seq<char>>, exists: Seq<bool>) -> Option<Seq<char>>
    decreases candidates.len(),
{
    if candidates.len() == 0 || exists.len() == 0 {
        None
    } else if exists[0] {
        Some(candidates[0])
    } else {
        first_existing(candidates.drop_first(), exists.drop_first())
    }
}

/// The places where the built static assets may lie, relative to the
/// working directory, best first.
pub fn frontend_dist_candidates() -> (candidates: Vec<String>)
    ensures
        texts(candidates@) == frontend_dist_paths(),
{
    let mut candidates: Vec<String> = Vec::new();
    candidates.push(String::from_str("../../../web/frontend/dist"));
    candidates.push(String::from_str("web/frontend/dist"));
    candidates
}

/// The places where the backend's sources may lie, relative to the working
/// directory, best first.
pub fn src_dir_candidates() -> (candidates: Vec<String>)
    ensures
        texts(candidates@) == src_dir_paths(),
{
    let mut candidates: Vec<String> = Vec::new();
    candidates.push(String::from_str("../../../src"));
    candidates.push(String::from_str("src"));
    candidates
}

/// The first of `candidates` that exists according to `exists`.
fn pick_existing(candidates: &Vec<String>, exists: &Vec<bool>) -> (guess: Option<String>)
    ensures
        text_of(guess) == first_existing(texts(candidates@), exists@),
{
    let mut i: usize = 0;
    assert(texts(candidates@).skip(0) =~= texts(candidates@));
    assert(exists@.skip(0) =~= exists@);
    while i < candidates.len() && i < exists.len()
        invariant
            i <= candidates.len(),
            i <= exists.len(),
            first_existing(texts(candidates@), exists@) == first_existing(
                texts(candidates@).skip(i as int),
                exists@.skip(i as int),
            ),
        decreases candidates.len() - i,
    {
        if exists[i] {
            return Some(candidates[i].clone());
        }
        assert(texts(candidates@).skip(i as int).drop_first() =~= texts(candidates@).skip(
            i + 1,
        ));
        assert(exists@.skip(i as int).drop_first() =~= exists@.skip(i + 1));
        i += 1;
    }
    None
}

/// Guesses where the built static assets lie.
///
/// `exists[i]` says whether the place at `i` of
/// [`frontend_dist_candidates`] exists under the working directory; pass
/// no entries when the working directory is unknown. The result is the
/// first place that exists, still relative, or nothing when none does.
pub fn repo_frontend_dist_guess(exists: &Vec<bool>) -> (guess: Option<String>)
    ensures
        text_of(guess) == first_existing(frontend_dist_paths(), exists@),
{
    pick_existing(&frontend_dist_candidates(), exists)
}

/// Guesses where the backend's sources lie.
///
/// `exists[i]` says whether the place at `i` of [`src_dir_candidates`]
/// exists under the working directory; pass no entries when the working
/// directory is unknown. The result is the first place that exists, still
/// relative, or nothing when none does.
pub fn repo_src_dir_guess(exists: &Vec<bool>) -> (guess: Option<String>)
    ensures
        text_of(guess) == first_existing(src_dir_paths(), exists@),
{
    pick_existing(&src_dir_candidates(), exists)
}

/// A guess is a candidate whose place exists while no better one does, and
/// there is a guess as soon as one place exists.
pub proof fn lemma_guess_is_first_existing(candidates: Seq<Seq<char>>, exists: Seq<bool>)
    ensures
        match first_existing(candidates, exists) {
            Some(path) => exists|i: int|
                0 <= i < candidates.len() && i < exists.len() && exists[i] && path
                    == #[trigger] candidates[i] && forall|j: int| 0 <= j < i ==> !exists[j],
            None => forall|j: int| 0 <= j < candidates.len() && j < exists.len() ==> !exists[j],
        },
    decreases candidates.len(),
{
    if candidates.len() > 0 && exists.len() > 0 && !exists[0] {
        let rest = candidates.drop_first();
        let flags = exists.drop_first();
        lemma_guess_is_first_existing(rest, flags);
        match first_existing(rest, flags) {
            Some(path) => {
                let i = choose|i: int|
                    0 <= i < rest.len() && i < flags.len() && flags[i] && path == #[trigger] rest[i]
                        && forall|j: int| 0 <= j < i ==> !flags[j];
                assert forall|j: int| 0 <= j < i + 1 implies !exists[j] by {
                    if j > 0 {
                        assert(exists[j] == flags[j - 1]);
                    }
                }
            },
            None => {
                assert forall|j: int|
                    0 <= j < candidates.len() && j < exists.len() implies !exists[j] by {
                    if j > 0 {
                        assert(exists[j] == flags[j - 1]);
                    }
                }
            },
        }
    }
}

} // verus!
