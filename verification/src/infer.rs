//! Environment inference: walking upward from the resolved module toward
//! an install root.
//!
//! When the caller's environment does not name an install root, the
//! launcher walks from the resolved module's directory upward, one level
//! at a time, and stops at the first directory that looks like the install
//! root: a package manifest beside it, a "packages" subdirectory, or the
//! directory's own name matching the product.  Reaching the filesystem
//! root without a marker is a normal miss, not an error.

use vstd::prelude::*;
use crate::pathname::{base_name, base_name_of, join, lemma_parent_shorter, parent_dir, parent_of};
use crate::probe::path_exists;

verus! {

/// The product directory name that by itself marks an install root.
pub open spec fn product_dir_name() -> Seq<char> {
    "research-cli"@
}

/// A directory whose own last component matches the product name looks
/// like the install root.
pub open spec fn has_name_marker(d: Seq<char>) -> bool {
    base_name(d) == product_dir_name()
}

/// The upward chain of directories from `d` to the filesystem root: `d`
/// itself first, then its parent, and so on, nearest first.
pub open spec fn ancestors_of(d: Seq<char>) -> Seq<Seq<char>>
    decreases d.len(),
    via ancestors_of_decreases
{
    match parent_of(d) {
        None => seq![d],
        Some(p) => seq![d] + ancestors_of(p),
    }
}

#[via_fn]
proof fn ancestors_of_decreases(d: Seq<char>) {
    lemma_parent_shorter(d);
}

/// Whether level `i` of the chain looks like the install root, given what
/// the disk answered at that level: a package manifest there, a
/// "packages" subdirectory there, or the product name as its own name.
pub open spec fn marked(
    chain: Seq<Seq<char>>,
    manifest: Seq<bool>,
    packages: Seq<bool>,
    i: int,
) -> bool {
    manifest[i] || packages[i] || has_name_marker(chain[i])
}

/// The pure selection core of inference: given the chain and the disk's
/// answers at every level, picks the nearest level that looks like the
/// install root, and nothing when no level does.
pub fn first_marked(chain: &Vec<String>, manifest: &Vec<bool>, packages: &Vec<bool>) -> (r: Option<
    usize,
>)
    requires
        manifest@.len() == chain@.len(),
        packages@.len() == chain@.len(),
    ensures
        match r {
            Some(i) => i < chain.len() && marked(chain.deep_view(), manifest@, packages@, i as int)
                && (forall|j: int|
                0 <= j < i ==> !marked(chain.deep_view(), manifest@, packages@, j)),
            None => forall|j: int|
                0 <= j < chain@.len() ==> !marked(chain.deep_view(), manifest@, packages@, j),
        },
{
    let product: String = "research-cli".to_owned();
    let mut i: usize = 0;
    while i < chain.len()
        invariant
            i <= chain.len(),
            manifest@.len() == chain@.len(),
            packages@.len() == chain@.len(),
            product@ == product_dir_name(),
            forall|j: int| 0 <= j < i ==> !marked(chain.deep_view(), manifest@, packages@, j),
        decreases chain.len() - i,
    {
        let name = base_name_of(chain[i].as_str());
        if manifest[i] || packages[i] || name == product {
            return Some(i);
        }
        i = i + 1;
    }
    None
}

/// Infers the install root for the child process: starting at the resolved
/// module's containing directory, walks upward one level at a time and
/// stops at the first level holding a package manifest, holding a
/// "packages" subdirectory, or named like the product itself.  The
/// manifest and subdirectory tests ask the disk, so the contract states
/// what holds of every outcome: an answer is always a directory of the
/// upward chain, and a level named like the product is never walked past,
/// so when the chain holds such a level, inference answers something.
pub fn infer_install_root(module: &str) -> (r: Option<String>)
    ensures
        parent_of(module@) matches Some(start) ==> {
            &&& (r matches Some(root) ==> ancestors_of(start).contains(root@))
            &&& (exists|i: int|
                0 <= i < ancestors_of(start).len() && has_name_marker(ancestors_of(start)[i]))
                ==> r is Some
        },
        parent_of(module@) is None ==> r is None,
{
    let start = match parent_dir(module) {
        Some(d) => d,
        None => {
            return None;
        },
    };
    let ghost start_view = start@;
    let ghost chain = ancestors_of(start_view);
    let product: String = "research-cli".to_owned();
    let mut current = start;
    let ghost mut k: int = 0;
    loop
        invariant
            parent_of(module@) == Some(start_view),
            chain == ancestors_of(start_view),
            product@ == product_dir_name(),
            0 <= k <= chain.len(),
            chain == chain.take(k) + ancestors_of(current@),
            forall|j: int| 0 <= j < k ==> !has_name_marker(chain[j]),
        decreases current@.len(),
    {
        proof {
            assert(ancestors_of(current@).len() >= 1);
            assert(chain.len() == k + ancestors_of(current@).len());
            assert(chain[k] == ancestors_of(current@)[0]);
            assert(ancestors_of(current@)[0] == current@);
        }
        let manifest_hit = path_exists(join(current.as_str(), "package.json").as_str());
        let packages_hit = path_exists(join(current.as_str(), "packages").as_str());
        let name = base_name_of(current.as_str());
        if manifest_hit || packages_hit || name == product {
            proof {
                assert(chain.contains(current@));
            }
            return Some(current);
        }
        match parent_dir(current.as_str()) {
            Some(p) => {
                proof {
                    lemma_parent_shorter(current@);
                    assert(ancestors_of(current@) == seq![current@] + ancestors_of(p@));
                    assert(chain.take(k + 1) =~= chain.take(k) + seq![current@]);
                    assert(chain =~= chain.take(k + 1) + ancestors_of(p@));
                }
                current = p;
                proof {
                    k = k + 1;
                }
            },
            None => {
                proof {
                    assert(ancestors_of(current@) =~= seq![current@]);
                    assert(chain.len() == k + 1);
                    assert(!has_name_marker(chain[k]));
                }
                return None;
            },
        }
    }
}

} // verus!
