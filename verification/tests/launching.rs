use laravel_toolkit::launch::{
    bridged_descriptor, direct_descriptor, join_path, LaunchError, server_identity,
    server_script_rel, stdio_flag,
};

#[test]
fn join_path_inserts_one_separator() {
    let joined = join_path(&"/ws".to_string(), "node_modules/.bin");
    assert_eq!(joined, "/ws/node_modules/.bin");
}

#[test]
fn direct_descriptor_uses_the_stdio_flag_alone() {
    let d = direct_descriptor("/usr/bin/intelephense".to_string());
    assert_eq!(d.command, "/usr/bin/intelephense");
    assert_eq!(d.args, vec!["--stdio".to_string()]);
    assert!(d.env.is_empty());
}

#[test]
fn bridged_descriptor_runs_interpreter_bridge_script() {
    let d = bridged_descriptor(
        "/usr/bin/node".to_string(),
        "/ext/lsp-proxy/proxy.js".to_string(),
        "/ws/node_modules/intelephense/lib/intelephense.js".to_string(),
    );
    assert_eq!(d.command, "/usr/bin/node");
    assert_eq!(
        d.args,
        vec![
            "/ext/lsp-proxy/proxy.js".to_string(),
            "/ws/node_modules/intelephense/lib/intelephense.js".to_string(),
        ]
    );
    assert!(d.env.is_empty());
}

#[test]
fn fixed_names_are_as_documented() {
    assert_eq!(server_identity(), "intelephense");
    assert_eq!(server_script_rel(), "node_modules/intelephense/lib/intelephense.js");
    assert_eq!(stdio_flag(), "--stdio");
}

#[test]
fn collaborator_errors_keep_their_message() {
    let e = LaunchError::VersionQueryFailed { message: "registry unreachable".to_string() };
    assert_eq!(e.describe(), "registry unreachable");
    let e = LaunchError::InstallFailed { message: "download failed".to_string() };
    assert_eq!(e.describe(), "download failed");
    let e = LaunchError::SelfLocationUnavailable;
    assert_eq!(
        e.describe(),
        "unable to determine the extension's own installation directory"
    );
}
