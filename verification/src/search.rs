//! The ordered search strategy.
//!
//! Resolution probes five tiers in a fixed order: an override install root
//! named by an environment variable, layouts beside (and one level above)
//! the running binary, conventional system install roots, per-user install
//! roots, and a platform-specific application-data root.  Every candidate
//! path, tier after tier and layout after layout, forms one ordered list,
//! and resolution selects the first candidate that exists on disk.

use vstd::prelude::*;
use crate::pathname::{join, join_with, parent_of, parent_dir};

verus! {

/// The values the launcher reads from its surroundings before searching:
/// the override variable naming an install root, the directory holding the
/// running binary, the user's home directory, and the platform's roaming
/// application-data directory (set only where that convention exists).
pub struct SearchEnv {
    pub override_root: Option<String>,
    pub exe_dir: Option<String>,
    pub home: Option<String>,
    pub appdata: Option<String>,
}

/// The mathematical content of a `SearchEnv`: each value as a sequence of
/// characters.
pub struct SearchEnvView {
    pub override_root: Option<Seq<char>>,
    pub exe_dir: Option<Seq<char>>,
    pub home: Option<Seq<char>>,
    pub appdata: Option<Seq<char>>,
}

impl View for SearchEnv {
    type V = SearchEnvView;

    open spec fn view(&self) -> SearchEnvView {
        SearchEnvView {
            override_root: self.override_root.deep_view(),
            exe_dir: self.exe_dir.deep_view(),
            home: self.home.deep_view(),
            appdata: self.appdata.deep_view(),
        }
    }
}

/// The name of the override environment variable: the highest-priority
/// search signal, naming an install root directly.
pub open spec fn override_var_name() -> Seq<char> {
    "RESEARCH_CLI_HOME"@
}

/// The override environment variable's name, for reading it from the
/// caller's environment and for setting it on the child process.
pub fn override_var() -> (r: String)
    ensures
        r@ == override_var_name(),
{
    "RESEARCH_CLI_HOME".to_owned()
}

/// The relative layouts probed beneath an override install root.
pub open spec fn override_layouts() -> Seq<Seq<char>> {
    seq![
        "packages/cli/dist/index.js"@,
        "dist/index.js"@,
        "cli/dist/index.js"@,
        "index.js"@,
    ]
}

/// The layouts probed relative to the directory holding the binary:
/// sibling library trees of a system-style install.
pub open spec fn exe_lib_layouts() -> Seq<Seq<char>> {
    seq![
        "../lib/research-cli/packages/cli/dist/index.js"@,
        "../lib/research-cli/dist/index.js"@,
        "../lib/research-cli/cli/dist/index.js"@,
        "../lib/research-cli/index.js"@,
        "lib/research-cli/packages/cli/dist/index.js"@,
        "lib/research-cli/dist/index.js"@,
    ]
}

/// The development-tree layouts probed one level above the binary.
pub open spec fn dev_layouts() -> Seq<Seq<char>> {
    seq![
        "packages/cli/dist/index.js"@,
        "packages/cli/index.js"@,
    ]
}

/// The fixed, absolute system install candidates.
pub open spec fn system_candidates() -> Seq<Seq<char>> {
    seq![
        "/usr/local/lib/research-cli/packages/cli/dist/index.js"@,
        "/usr/local/lib/research-cli/dist/index.js"@,
        "/opt/research-cli/packages/cli/dist/index.js"@,
        "/opt/research-cli/dist/index.js"@,
        "/usr/lib/research-cli/packages/cli/dist/index.js"@,
        "/usr/lib/research-cli/dist/index.js"@,
    ]
}

/// The layouts probed beneath the user's home directory.
pub open spec fn user_layouts() -> Seq<Seq<char>> {
    seq![
        ".local/lib/research-cli/packages/cli/dist/index.js"@,
        ".local/lib/research-cli/dist/index.js"@,
        ".research-cli/packages/cli/dist/index.js"@,
        ".research-cli/dist/index.js"@,
    ]
}

/// The layouts probed beneath the platform's application-data root.
pub open spec fn appdata_layouts() -> Seq<Seq<char>> {
    seq![
        "research-cli/packages/cli/dist/index.js"@,
        "research-cli/dist/index.js"@,
    ]
}

/// Each layout of `layouts` joined beneath `root`, in order.
pub open spec fn joined(root: Seq<char>, layouts: Seq<Seq<char>>) -> Seq<Seq<char>> {
    layouts.map_values(|s: Seq<char>| join_with(root, s))
}

/// The candidates of the override tier: nothing when the variable is
/// unset, else its root joined against the override layouts.
pub open spec fn override_tier(root: Option<Seq<char>>) -> Seq<Seq<char>> {
    match root {
        Some(r) => joined(r, override_layouts()),
        None => Seq::empty(),
    }
}

/// The candidates of the executable-relative tier: sibling library trees
/// beneath the binary's directory, then development layouts one level up.
pub open spec fn exe_tier(exe_dir: Option<Seq<char>>) -> Seq<Seq<char>> {
    match exe_dir {
        Some(d) => joined(d, exe_lib_layouts()) + match parent_of(d) {
            Some(p) => joined(p, dev_layouts()),
            None => Seq::empty(),
        },
        None => Seq::empty(),
    }
}

/// The candidates of the user tier beneath the home directory.
pub open spec fn user_tier(home: Option<Seq<char>>) -> Seq<Seq<char>> {
    match home {
        Some(h) => joined(h, user_layouts()),
        None => Seq::empty(),
    }
}

/// The candidates of the platform-specific tier beneath the
/// application-data root.
pub open spec fn appdata_tier(appdata: Option<Seq<char>>) -> Seq<Seq<char>> {
    match appdata {
        Some(a) => joined(a, appdata_layouts()),
        None => Seq::empty(),
    }
}

/// How many tiers the search strategy holds.
pub open spec fn tier_count() -> int {
    5
}

/// The candidates of tier `t`, in the declared total order of tiers.
pub open spec fn tier_candidates(env: SearchEnvView, t: int) -> Seq<Seq<char>> {
    if t == 0 {
        override_tier(env.override_root)
    } else if t == 1 {
        exe_tier(env.exe_dir)
    } else if t == 2 {
        system_candidates()
    } else if t == 3 {
        user_tier(env.home)
    } else if t == 4 {
        appdata_tier(env.appdata)
    } else {
        Seq::empty()
    }
}

/// Every candidate path of a run, tier after tier, in probing order.
pub open spec fn all_candidates(env: SearchEnvView) -> Seq<Seq<char>> {
    tier_candidates(env, 0) + tier_candidates(env, 1) + tier_candidates(env, 2)
        + tier_candidates(env, 3) + tier_candidates(env, 4)
}

/// Index at which tier `t`'s candidates start within `all_candidates`.
pub open spec fn tier_start(env: SearchEnvView, t: int) -> int
    decreases t,
{
    if t <= 0 {
        0
    } else {
        tier_start(env, t - 1) + tier_candidates(env, t - 1).len()
    }
}

/// The tier ranges tile `all_candidates`: each tier starts where the
/// previous one ends, starts never decrease, and the last tier ends at the
/// end of the candidate list.
pub proof fn lemma_tier_starts(env: SearchEnvView)
    ensures
        tier_start(env, 0) == 0,
        tier_start(env, 1) == tier_candidates(env, 0).len(),
        tier_start(env, 2) == tier_start(env, 1) + tier_candidates(env, 1).len(),
        tier_start(env, 3) == tier_start(env, 2) + tier_candidates(env, 2).len(),
        tier_start(env, 4) == tier_start(env, 3) + tier_candidates(env, 3).len(),
        tier_start(env, 5) == tier_start(env, 4) + tier_candidates(env, 4).len(),
        tier_start(env, 5) == all_candidates(env).len(),
        forall|t1: int, t2: int| 0 <= t1 <= t2 <= 5 ==> tier_start(env, t1) <= tier_start(env, t2),
{
    reveal_with_fuel(tier_start, 7);
    assert forall|t1: int, t2: int| 0 <= t1 <= t2 <= 5 implies tier_start(env, t1) <= tier_start(
        env,
        t2,
    ) by {
        reveal_with_fuel(tier_start, 7);
    }
}

/// A candidate's position within its tier gives its position in the whole
/// candidate list: tier `t`'s candidate `i` stands at `tier_start(t) + i`.
pub proof fn lemma_tier_slice(env: SearchEnvView, t: int, i: int)
    requires
        0 <= t < tier_count(),
        0 <= i < tier_candidates(env, t).len(),
    ensures
        0 <= tier_start(env, t) + i < all_candidates(env).len(),
        all_candidates(env)[tier_start(env, t) + i] == tier_candidates(env, t)[i],
{
    lemma_tier_starts(env);
}

/// Index of the first `true` in `flags`, or nothing when none is set: the
/// pure shape of short-circuit probing.
pub open spec fn first_true(flags: Seq<bool>) -> Option<int>
    decreases flags.len(),
{
    if flags.len() == 0 {
        None
    } else if flags[0] {
        Some(0)
    } else {
        match first_true(flags.drop_first()) {
            Some(i) => Some(i + 1),
            None => None,
        }
    }
}

/// `first_true` picks exactly the least set index, and answers nothing
/// only when no flag is set.
pub proof fn lemma_first_true_least(flags: Seq<bool>)
    ensures
        match first_true(flags) {
            Some(i) => 0 <= i < flags.len() && flags[i] && (forall|j: int|
                0 <= j < i ==> !flags[j]),
            None => forall|j: int| 0 <= j < flags.len() ==> !flags[j],
        },
    decreases flags.len(),
{
    if flags.len() == 0 {
    } else if flags[0] {
    } else {
        lemma_first_true_least(flags.drop_first());
        match first_true(flags.drop_first()) {
            Some(i) => {
                assert(flags[i + 1] == flags.drop_first()[i]);
                assert forall|j: int| 0 <= j < i + 1 implies !flags[j] by {
                    if j >= 1 {
                        assert(flags[j] == flags.drop_first()[j - 1]);
                    }
                }
            },
            None => {
                assert forall|j: int| 0 <= j < flags.len() implies !flags[j] by {
                    if j >= 1 {
                        assert(flags[j] == flags.drop_first()[j - 1]);
                    }
                }
            },
        }
    }
}

/// Stable ordering: when an earlier candidate matches, no later candidate
/// is ever selected.  In particular, within one tier the first matching
/// relative layout in the declared order is chosen.
pub proof fn lemma_first_match_wins(flags: Seq<bool>, i: int)
    requires
        0 <= i < flags.len(),
        flags[i],
    ensures
        first_true(flags) matches Some(k) && k <= i,
{
    lemma_first_true_least(flags);
}

/// Strict tier precedence: when any candidate of tier `t` matches, the
/// selected index lies before the range of every later tier `u`, whatever
/// matches there.
pub proof fn lemma_tier_precedence(env: SearchEnvView, flags: Seq<bool>, t: int, i: int, u: int)
    requires
        flags.len() == all_candidates(env).len(),
        0 <= t < u < tier_count(),
        0 <= i < tier_candidates(env, t).len(),
        flags[tier_start(env, t) + i],
    ensures
        first_true(flags) matches Some(k) && k < tier_start(env, u),
{
    lemma_tier_starts(env);
    lemma_tier_slice(env, t, i);
    lemma_first_match_wins(flags, tier_start(env, t) + i);
    assert(tier_start(env, t) + i < tier_start(env, t + 1));
    assert(tier_start(env, t + 1) <= tier_start(env, u));
}

/// Picks the first set flag: the pure selection core of resolution.
pub fn select_first(flags: &Vec<bool>) -> (r: Option<usize>)
    ensures
        first_true(flags@) == match r {
            Some(i) => Some(i as int),
            None => None::<int>,
        },
{
    let mut i: usize = 0;
    while i < flags.len()
        invariant
            i <= flags.len(),
            forall|j: int| 0 <= j < i ==> !flags@[j],
        decreases flags.len() - i,
    {
        if flags[i] {
            proof {
                lemma_first_true_least(flags@);
            }
            return Some(i);
        }
        i = i + 1;
    }
    proof {
        lemma_first_true_least(flags@);
    }
    None
}

/// Joins one candidate root against an ordered list of relative layouts.
fn join_all(root: &str, layouts: &Vec<&str>) -> (r: Vec<String>)
    ensures
        r.deep_view() == joined(root@, layouts.deep_view()),
{
    let ghost goal = joined(root@, layouts.deep_view());
    let mut r: Vec<String> = Vec::new();
    let mut i: usize = 0;
    proof {
        assert(r.deep_view() =~= goal.take(0));
    }
    while i < layouts.len()
        invariant
            i <= layouts.len(),
            goal == joined(root@, layouts.deep_view()),
            layouts.deep_view().len() == layouts.len(),
            r@.len() == i,
            r.deep_view() == goal.take(i as int),
        decreases layouts.len() - i,
    {
        let candidate = join(root, layouts[i]);
        let ghost prev = r.deep_view();
        let ghost cview = candidate@;
        r.push(candidate);
        proof {
            assert forall|k: int| 0 <= k <= i as int implies r.deep_view()[k] == goal.take(
                i as int + 1,
            )[k] by {
                if k < i as int {
                    assert(r.deep_view()[k] == prev[k]);
                } else {
                    assert(r.deep_view()[k] == cview);
                }
            }
            assert(r.deep_view() =~= goal.take(i as int + 1));
        }
        i = i + 1;
    }
    proof {
        assert(goal.take(layouts.len() as int) =~= goal);
    }
    r
}

/// The override layouts in their declared order.
fn override_layouts_exec() -> (r: Vec<&'static str>)
    ensures
        r.deep_view() == override_layouts(),
{
    let mut v: Vec<&'static str> = Vec::new();
    v.push("packages/cli/dist/index.js");
    v.push("dist/index.js");
    v.push("cli/dist/index.js");
    v.push("index.js");
    proof {
        assert(v.deep_view() =~= override_layouts());
    }
    v
}

/// The executable-relative library layouts in their declared order.
fn exe_lib_layouts_exec() -> (r: Vec<&'static str>)
    ensures
        r.deep_view() == exe_lib_layouts(),
{
    let mut v: Vec<&'static str> = Vec::new();
    v.push("../lib/research-cli/packages/cli/dist/index.js");
    v.push("../lib/research-cli/dist/index.js");
    v.push("../lib/research-cli/cli/dist/index.js");
    v.push("../lib/research-cli/index.js");
    v.push("lib/research-cli/packages/cli/dist/index.js");
    v.push("lib/research-cli/dist/index.js");
    proof {
        assert(v.deep_view() =~= exe_lib_layouts());
    }
    v
}

/// The development-tree layouts in their declared order.
fn dev_layouts_exec() -> (r: Vec<&'static str>)
    ensures
        r.deep_view() == dev_layouts(),
{
    let mut v: Vec<&'static str> = Vec::new();
    v.push("packages/cli/dist/index.js");
    v.push("packages/cli/index.js");
    proof {
        assert(v.deep_view() =~= dev_layouts());
    }
    v
}

/// The user-tier layouts in their declared order.
fn user_layouts_exec() -> (r: Vec<&'static str>)
    ensures
        r.deep_view() == user_layouts(),
{
    let mut v: Vec<&'static str> = Vec::new();
    v.push(".local/lib/research-cli/packages/cli/dist/index.js");
    v.push(".local/lib/research-cli/dist/index.js");
    v.push(".research-cli/packages/cli/dist/index.js");
    v.push(".research-cli/dist/index.js");
    proof {
        assert(v.deep_view() =~= user_layouts());
    }
    v
}

/// The application-data layouts in their declared order.
fn appdata_layouts_exec() -> (r: Vec<&'static str>)
    ensures
        r.deep_view() == appdata_layouts(),
{
    let mut v: Vec<&'static str> = Vec::new();
    v.push("research-cli/packages/cli/dist/index.js");
    v.push("research-cli/dist/index.js");
    proof {
        assert(v.deep_view() =~= appdata_layouts());
    }
    v
}

/// The candidates of the override tier.
fn override_tier_exec(root: &Option<String>) -> (r: Vec<String>)
    ensures
        r.deep_view() == override_tier(root.deep_view()),
{
    match root {
        Some(root) => {
            let layouts = override_layouts_exec();
            join_all(root.as_str(), &layouts)
        },
        None => {
            let v: Vec<String> = Vec::new();
            proof {
                assert(v.deep_view() =~= Seq::<Seq<char>>::empty());
            }
            v
        },
    }
}

/// The candidates of the executable-relative tier.
fn exe_tier_exec(exe_dir: &Option<String>) -> (r: Vec<String>)
    ensures
        r.deep_view() == exe_tier(exe_dir.deep_view()),
{
    match exe_dir {
        Some(d) => {
            let lib_layouts = exe_lib_layouts_exec();
            let mut r = join_all(d.as_str(), &lib_layouts);
            match parent_dir(d.as_str()) {
                Some(p) => {
                    let layouts = dev_layouts_exec();
                    let mut dev = join_all(p.as_str(), &layouts);
                    r.append(&mut dev);
                },
                None => {},
            }
            proof {
                assert(r.deep_view() =~= exe_tier(exe_dir.deep_view()));
            }
            r
        },
        None => {
            let v: Vec<String> = Vec::new();
            proof {
                assert(v.deep_view() =~= Seq::<Seq<char>>::empty());
            }
            v
        },
    }
}

/// The fixed system-tier candidates.
fn system_tier_exec() -> (r: Vec<String>)
    ensures
        r.deep_view() == system_candidates(),
{
    let mut v: Vec<String> = Vec::new();
    v.push("/usr/local/lib/research-cli/packages/cli/dist/index.js".to_owned());
    v.push("/usr/local/lib/research-cli/dist/index.js".to_owned());
    v.push("/opt/research-cli/packages/cli/dist/index.js".to_owned());
    v.push("/opt/research-cli/dist/index.js".to_owned());
    v.push("/usr/lib/research-cli/packages/cli/dist/index.js".to_owned());
    v.push("/usr/lib/research-cli/dist/index.js".to_owned());
    proof {
        assert(v.deep_view() =~= system_candidates());
    }
    v
}

/// The candidates of the user tier.
fn user_tier_exec(home: &Option<String>) -> (r: Vec<String>)
    ensures
        r.deep_view() == user_tier(home.deep_view()),
{
    match home {
        Some(h) => {
            let layouts = user_layouts_exec();
            join_all(h.as_str(), &layouts)
        },
        None => {
            let v: Vec<String> = Vec::new();
            proof {
                assert(v.deep_view() =~= Seq::<Seq<char>>::empty());
            }
            v
        },
    }
}

/// The candidates of the platform-specific tier.
fn appdata_tier_exec(appdata: &Option<String>) -> (r: Vec<String>)
    ensures
        r.deep_view() == appdata_tier(appdata.deep_view()),
{
    match appdata {
        Some(a) => {
            let layouts = appdata_layouts_exec();
            join_all(a.as_str(), &layouts)
        },
        None => {
            let v: Vec<String> = Vec::new();
            proof {
                assert(v.deep_view() =~= Seq::<Seq<char>>::empty());
            }
            v
        },
    }
}

/// Builds every candidate path of a run, tier after tier, in the declared
/// probing order.
pub fn candidate_paths(env: &SearchEnv) -> (r: Vec<String>)
    ensures
        r.deep_view() == all_candidates(env@),
{
    let mut r = override_tier_exec(&env.override_root);
    let mut t1 = exe_tier_exec(&env.exe_dir);
    let mut t2 = system_tier_exec();
    let mut t3 = user_tier_exec(&env.home);
    let mut t4 = appdata_tier_exec(&env.appdata);
    r.append(&mut t1);
    r.append(&mut t2);
    r.append(&mut t3);
    r.append(&mut t4);
    proof {
        assert(r.deep_view() =~= all_candidates(env@));
    }
    r
}

} // verus!
