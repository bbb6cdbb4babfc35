//! Probing the filesystem and resolving the delegate module.
//!
//! Candidates are probed in their declared order and the first existing
//! one wins.  What the disk holds is outside any contract here: the
//! promises state what holds of every outcome.

use vstd::prelude::*;
use crate::search::{SearchEnv, all_candidates, candidate_paths};

verus! {

/// Relies on std::path::Path::exists: whether `path` names an existing
/// filesystem entity.  The answer depends on the state of the disk, so
/// nothing is promised of it.
#[verifier::external_body]
pub(crate) fn path_exists(path: &str) -> bool {
    std::path::Path::new(path).exists()
}

/// Probes candidates in order, stopping at the first that exists on disk;
/// a missing candidate (or a missing root above it) is a normal miss, not
/// an error.  Whatever the disk holds, a returned index lies within the
/// candidate list.
pub fn first_existing(candidates: &Vec<String>) -> (r: Option<usize>)
    ensures
        r matches Some(i) ==> i < candidates.len(),
{
    let mut i: usize = 0;
    while i < candidates.len()
        invariant
            i <= candidates.len(),
        decreases candidates.len() - i,
    {
        if path_exists(candidates[i].as_str()) {
            return Some(i);
        }
        i = i + 1;
    }
    None
}

/// Resolves the delegate module: builds every candidate in tier order and
/// returns the first that exists on disk.  Whatever the disk holds, a
/// resolved path is one of the declared candidates of this environment,
/// and exactly one module is chosen per run or resolution fails whole.
pub fn resolve(env: &SearchEnv) -> (r: Option<String>)
    ensures
        r matches Some(p) ==> all_candidates(env@).contains(p@),
{
    let candidates = candidate_paths(env);
    match first_existing(&candidates) {
        Some(i) => {
            let p = candidates[i].clone();
            proof {
                assert(all_candidates(env@)[i as int] == p@);
                assert(all_candidates(env@).contains(p@));
            }
            Some(p)
        },
        None => None,
    }
}

} // verus!
