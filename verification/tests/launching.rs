use research_cli_launcher::launch::{
    build_launch_spec, decide_launch, delegate_argv, failure_exit_code, interpreter_program,
    launcher_exit_code, LaunchDecision,
};
use research_cli_launcher::messages::{
    interpreter_missing_lines, remediation_lines, startup_failure_lines,
};

#[test]
fn interpreter_is_node() {
    assert_eq!(interpreter_program(), "node");
}

#[test]
fn arguments_are_forwarded_verbatim_in_order() {
    let args = vec![
        "plain".to_string(),
        "with space".to_string(),
        "\"quoted\" 'args'".to_string(),
        "ünïcödé ≠ ascii 🚀".to_string(),
        "--flag=value".to_string(),
    ];
    let plan = build_launch_spec("/m/index.js".to_string(), args.clone(), false, None);
    assert_eq!(plan.args, args);
    let argv = delegate_argv(&plan);
    assert_eq!(argv.len(), args.len() + 1);
    assert_eq!(argv[0], "/m/index.js");
    assert_eq!(&argv[1..], &args[..]);
}

#[test]
fn caller_override_is_never_overwritten() {
    let plan = build_launch_spec(
        "/m/index.js".to_string(),
        vec![],
        true,
        Some("/inferred/root".to_string()),
    );
    assert_eq!(plan.inject_override, None);
}

#[test]
fn inferred_root_is_set_only_when_caller_had_none() {
    let plan = build_launch_spec(
        "/m/index.js".to_string(),
        vec![],
        false,
        Some("/inferred/root".to_string()),
    );
    assert_eq!(plan.inject_override, Some("/inferred/root".to_string()));
}

#[test]
fn missing_module_is_reported_and_nothing_is_spawned() {
    let d = decide_launch(false, true);
    assert_eq!(d, LaunchDecision::ReportNotFound);
    assert_ne!(d, LaunchDecision::Delegate);
    let d2 = decide_launch(false, false);
    assert_eq!(d2, LaunchDecision::ReportNotFound);
    assert_eq!(failure_exit_code(), 1);
}

#[test]
fn missing_interpreter_is_reported_before_spawning() {
    let d = decide_launch(true, false);
    assert_eq!(d, LaunchDecision::ReportInterpreterMissing);
    assert_ne!(d, LaunchDecision::Delegate);
    assert_eq!(failure_exit_code(), 1);
}

#[test]
fn resolved_module_and_interpreter_delegate() {
    assert_eq!(decide_launch(true, true), LaunchDecision::Delegate);
}

#[test]
fn delegate_exit_codes_pass_through() {
    assert_eq!(launcher_exit_code(Some(0)), 0);
    assert_eq!(launcher_exit_code(Some(1)), 1);
    assert_eq!(launcher_exit_code(Some(17)), 17);
}

#[test]
fn signal_termination_maps_to_failure_code() {
    assert_eq!(launcher_exit_code(None), 1);
}

#[test]
fn remediation_text_names_the_override_variable() {
    let lines = remediation_lines();
    assert_eq!(lines.len(), 25);
    assert_eq!(lines[2], "Error: Research CLI module not found!");
    assert!(lines.iter().any(|l| l.contains("export RESEARCH_CLI_HOME=")));
    assert!(lines.iter().any(|l| l.contains("npm run build")));
}

#[test]
fn interpreter_guidance_names_the_runtime() {
    let lines = interpreter_missing_lines();
    assert_eq!(lines.len(), 6);
    assert_eq!(lines[0], "Error: Node.js is not installed or not available in PATH!");
    assert_eq!(lines[5], "Supported Node.js versions: 18.0.0 or higher");
}

#[test]
fn startup_failure_carries_the_spawn_error() {
    let lines = startup_failure_lines("permission denied");
    assert_eq!(lines[0], "Failed to start Research CLI: permission denied");
    assert_eq!(lines[6], "  node --version");
}
