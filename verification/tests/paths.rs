use research_cli_launcher::pathname::{base_name_of, join, parent_dir};

#[test]
fn join_inserts_one_separator() {
    assert_eq!(join("/root", "dist/index.js"), "/root/dist/index.js");
    assert_eq!(join("", "index.js"), "/index.js");
}

#[test]
fn parent_of_nested_path() {
    assert_eq!(parent_dir("/a/b/c"), Some("/a/b".to_string()));
    assert_eq!(parent_dir("a/b"), Some("a".to_string()));
}

#[test]
fn parent_of_top_level_entry_is_root() {
    assert_eq!(parent_dir("/a"), Some("/".to_string()));
}

#[test]
fn root_and_bare_name_have_no_parent() {
    assert_eq!(parent_dir("/"), None);
    assert_eq!(parent_dir("index.js"), None);
}

#[test]
fn base_name_is_last_component() {
    assert_eq!(base_name_of("/a/b/research-cli"), "research-cli");
    assert_eq!(base_name_of("research-cli"), "research-cli");
    assert_eq!(base_name_of("/a/b/"), "");
}

#[test]
fn unicode_components_survive_joins_and_parents() {
    let joined = join("/bäse", "ünter/modül.js");
    assert_eq!(joined, "/bäse/ünter/modül.js");
    assert_eq!(parent_dir(&joined), Some("/bäse/ünter".to_string()));
    assert_eq!(base_name_of(&joined), "modül.js");
}
