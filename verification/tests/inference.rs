use research_cli_launcher::infer::{first_marked, infer_install_root};

fn chain(parts: &[&str]) -> Vec<String> {
    parts.iter().map(|p| p.to_string()).collect()
}

#[test]
fn manifest_marker_wins_at_nearest_level() {
    let c = chain(&["/a/b/dist", "/a/b", "/a", "/"]);
    let manifest = vec![false, true, true, false];
    let packages = vec![false, false, true, false];
    assert_eq!(first_marked(&c, &manifest, &packages), Some(1));
}

#[test]
fn packages_subdirectory_is_a_marker() {
    let c = chain(&["/a/b/dist", "/a/b", "/a", "/"]);
    let manifest = vec![false, false, false, false];
    let packages = vec![false, false, true, false];
    assert_eq!(first_marked(&c, &manifest, &packages), Some(2));
}

#[test]
fn product_name_is_a_marker_of_its_own() {
    let c = chain(&["/opt/research-cli/dist", "/opt/research-cli", "/opt", "/"]);
    let manifest = vec![false, false, false, false];
    let packages = vec![false, false, false, false];
    assert_eq!(first_marked(&c, &manifest, &packages), Some(1));
}

#[test]
fn unmarked_chain_yields_nothing() {
    let c = chain(&["/a/b/dist", "/a/b", "/a", "/"]);
    let none = vec![false, false, false, false];
    assert_eq!(first_marked(&c, &none, &none), None);
}

#[test]
fn inference_stops_at_product_directory() {
    // The roots below do not exist on this machine, so only the
    // directory-name marker can answer; the walk stops at the product
    // directory nearest the module.
    let module = "/zz-launcher-test-absent/research-cli/dist/index.js";
    assert_eq!(
        infer_install_root(module),
        Some("/zz-launcher-test-absent/research-cli".to_string())
    );
}

#[test]
fn inference_without_markers_yields_nothing() {
    let module = "/zz-launcher-test-absent/plain/tree/index.js";
    assert_eq!(infer_install_root(module), None);
}

#[test]
fn inference_needs_a_containing_directory() {
    assert_eq!(infer_install_root("index.js"), None);
}
