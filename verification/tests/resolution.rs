use research_cli_launcher::probe::resolve;
use research_cli_launcher::search::{candidate_paths, override_var, select_first, SearchEnv};

fn full_env() -> SearchEnv {
    SearchEnv {
        override_root: Some("/custom".to_string()),
        exe_dir: Some("/usr/local/bin".to_string()),
        home: Some("/home/u".to_string()),
        appdata: Some("/appdata".to_string()),
    }
}

#[test]
fn override_variable_name() {
    assert_eq!(override_var(), "RESEARCH_CLI_HOME");
}

#[test]
fn candidates_come_tier_after_tier() {
    let c = candidate_paths(&full_env());
    assert_eq!(c.len(), 24);
    // Override tier first, its layouts in declared order.
    assert_eq!(c[0], "/custom/packages/cli/dist/index.js");
    assert_eq!(c[1], "/custom/dist/index.js");
    assert_eq!(c[2], "/custom/cli/dist/index.js");
    assert_eq!(c[3], "/custom/index.js");
    // Executable-relative tier: sibling library trees, then the
    // development layouts one level above the binary's directory.
    assert_eq!(c[4], "/usr/local/bin/../lib/research-cli/packages/cli/dist/index.js");
    assert_eq!(c[9], "/usr/local/bin/lib/research-cli/dist/index.js");
    assert_eq!(c[10], "/usr/local/packages/cli/dist/index.js");
    assert_eq!(c[11], "/usr/local/packages/cli/index.js");
    // System tier.
    assert_eq!(c[12], "/usr/local/lib/research-cli/packages/cli/dist/index.js");
    assert_eq!(c[17], "/usr/lib/research-cli/dist/index.js");
    // User tier.
    assert_eq!(c[18], "/home/u/.local/lib/research-cli/packages/cli/dist/index.js");
    assert_eq!(c[21], "/home/u/.research-cli/dist/index.js");
    // Platform-specific tier last.
    assert_eq!(c[22], "/appdata/research-cli/packages/cli/dist/index.js");
    assert_eq!(c[23], "/appdata/research-cli/dist/index.js");
}

#[test]
fn unset_tiers_produce_no_candidates() {
    let env = SearchEnv {
        override_root: None,
        exe_dir: None,
        home: None,
        appdata: None,
    };
    let c = candidate_paths(&env);
    assert_eq!(c.len(), 6);
    assert_eq!(c[0], "/usr/local/lib/research-cli/packages/cli/dist/index.js");
    assert_eq!(c[5], "/usr/lib/research-cli/dist/index.js");
}

#[test]
fn earlier_tier_wins_over_later_tier() {
    let c = candidate_paths(&full_env());
    let mut flags = vec![false; c.len()];
    // A match in the executable-relative tier and one in the system tier:
    // the earlier tier's match is selected.
    flags[9] = true;
    flags[14] = true;
    assert_eq!(select_first(&flags), Some(9));
}

#[test]
fn first_layout_within_a_tier_wins() {
    let c = candidate_paths(&full_env());
    let mut flags = vec![false; c.len()];
    flags[1] = true;
    flags[2] = true;
    flags[3] = true;
    assert_eq!(select_first(&flags), Some(1));
}

#[test]
fn no_match_selects_nothing() {
    let flags = vec![false; 24];
    assert_eq!(select_first(&flags), None);
}

#[test]
fn scenario_override_root_with_dist_layout() {
    // The override variable points at a root holding "dist/index.js";
    // resolution selects it even though later tiers also match.
    let c = candidate_paths(&full_env());
    let mut flags = vec![false; c.len()];
    flags[1] = true; // /custom/dist/index.js
    flags[12] = true; // a system-tier match, never reached
    flags[19] = true; // a user-tier match, never reached
    let picked = select_first(&flags).unwrap();
    assert_eq!(picked, 1);
    assert_eq!(c[picked], "/custom/dist/index.js");
}

#[test]
fn scenario_sibling_library_tree() {
    // No override set; the binary sits in a system-style tree with a
    // sibling "lib/research-cli/dist/index.js" one level up.
    let env = SearchEnv {
        override_root: None,
        exe_dir: Some("/opt/product/bin".to_string()),
        home: Some("/home/u".to_string()),
        appdata: None,
    };
    let c = candidate_paths(&env);
    let mut flags = vec![false; c.len()];
    let wanted = "/opt/product/bin/../lib/research-cli/dist/index.js";
    let at = c.iter().position(|p| p == wanted).unwrap();
    flags[at] = true;
    assert_eq!(select_first(&flags), Some(at));
    assert_eq!(c[at], wanted);
}

#[test]
fn resolve_finds_nothing_among_absent_roots() {
    // Every candidate lies beneath roots that do not exist on this
    // machine, so resolution fails whole.
    let env = SearchEnv {
        override_root: Some("/zz-launcher-test-absent/override".to_string()),
        exe_dir: Some("/zz-launcher-test-absent/bin".to_string()),
        home: Some("/zz-launcher-test-absent/home".to_string()),
        appdata: Some("/zz-launcher-test-absent/appdata".to_string()),
    };
    assert_eq!(resolve(&env), None);
}
