use laravel_toolkit::launch::{LaunchDescriptor, LaunchError};
use laravel_toolkit::resolve::{
    Action, Event, ProvisionState, Resolver, StatusReport, Step,
};

const SERVER: &str = "intelephense";
const ROOT: &str = "/ws";
const LOCAL: &str = "/ws/node_modules/intelephense/lib/intelephense.js";

fn pending(step: Step) -> Action {
    match step {
        Step::Pending { action } => action,
        Step::Done { .. } => panic!("expected a pending action, got a terminal result"),
    }
}

fn done(step: Step) -> Result<LaunchDescriptor, LaunchError> {
    match step {
        Step::Done { result } => result,
        Step::Pending { .. } => panic!("expected a terminal result, got a pending action"),
    }
}

/// Drive the launch phases to completion and return the descriptor.
fn finish_launch(resolver: &mut Resolver, step: Step, ext_dir: &str, node: &str) -> LaunchDescriptor {
    assert!(matches!(pending(step), Action::LocateSelf));
    let step = resolver.next(Event::SelfLocation { directory: Some(ext_dir.to_string()) });
    assert!(matches!(pending(step), Action::LocateInterpreter));
    let step = resolver.next(Event::Interpreter { path: node.to_string() });
    done(step).expect("launch should succeed")
}

#[test]
fn unknown_identity_fails() {
    let session = ProvisionState::new();
    let (_resolver, step) = Resolver::start("phpactor", ROOT, &session);
    match done(step) {
        Err(LaunchError::UnknownServerIdentity { id }) => {
            assert_eq!(id, "phpactor");
        }
        _ => panic!("expected UnknownServerIdentity"),
    }
}

#[test]
fn unknown_identity_message() {
    let session = ProvisionState::new();
    let (_resolver, step) = Resolver::start("laravel", ROOT, &session);
    let err = done(step).unwrap_err();
    assert_eq!(err.describe(), "unknown language server: laravel");
}

#[test]
fn path_hit_gives_direct_descriptor() {
    let session = ProvisionState::new();
    let (mut resolver, step) = Resolver::start(SERVER, ROOT, &session);
    match pending(step) {
        Action::LookupOnPath { name } => assert_eq!(name, SERVER),
        _ => panic!("expected the PATH lookup first"),
    }
    let step = resolver.next(Event::PathLookup {
        found: Some("/usr/local/bin/intelephense".to_string()),
    });
    let descriptor = done(step).expect("a PATH hit must succeed");
    assert_eq!(descriptor.command, "/usr/local/bin/intelephense");
    assert_eq!(descriptor.args, vec!["--stdio".to_string()]);
    assert!(descriptor.env.is_empty());
}

#[test]
fn path_hit_wins_even_when_session_confirmed() {
    let session = ProvisionState { confirmed_present: true };
    let (mut resolver, step) = Resolver::start(SERVER, ROOT, &session);
    assert!(matches!(pending(step), Action::LookupOnPath { .. }));
    let step = resolver.next(Event::PathLookup { found: Some("/bin/intelephense".to_string()) });
    let descriptor = done(step).unwrap();
    assert_eq!(descriptor.command, "/bin/intelephense");
    assert_eq!(descriptor.args.len(), 1);
}

#[test]
fn confirmed_warm_path_makes_no_registry_query() {
    let session = ProvisionState { confirmed_present: true };
    let (mut resolver, step) = Resolver::start(SERVER, ROOT, &session);
    assert!(matches!(pending(step), Action::LookupOnPath { .. }));
    let step = resolver.next(Event::PathLookup { found: None });
    match pending(step) {
        Action::CheckLocalFile { path } => assert_eq!(path, LOCAL),
        _ => panic!("expected the local file probe"),
    }
    // The local copy still exists: straight to launching, no network action.
    let step = resolver.next(Event::LocalFile { exists: true });
    let descriptor = finish_launch(&mut resolver, step, "/ext", "/usr/bin/node");
    assert_eq!(descriptor.command, "/usr/bin/node");
    assert_eq!(
        descriptor.args,
        vec!["/ext/lsp-proxy/proxy.js".to_string(), LOCAL.to_string()]
    );
    assert!(descriptor.env.is_empty());
}

#[test]
fn version_query_failure_without_copy_is_fatal() {
    let session = ProvisionState::new();
    let (mut resolver, step) = Resolver::start(SERVER, ROOT, &session);
    assert!(matches!(pending(step), Action::LookupOnPath { .. }));
    let step = resolver.next(Event::PathLookup { found: None });
    assert!(matches!(pending(step), Action::CheckLocalFile { .. }));
    let step = resolver.next(Event::LocalFile { exists: false });
    match pending(step) {
        Action::ReportStatus { status } => {
            assert!(matches!(status, StatusReport::CheckingForUpdate));
        }
        _ => panic!("expected the checking-for-update report"),
    }
    let step = resolver.next(Event::StatusReported);
    match pending(step) {
        Action::QueryLatestVersion { package } => assert_eq!(package, "intelephense"),
        _ => panic!("expected the version query"),
    }
    let step = resolver.next(Event::LatestVersion {
        result: Err("registry unreachable".to_string()),
    });
    match done(step) {
        Err(LaunchError::VersionQueryFailed { message }) => {
            assert_eq!(message, "registry unreachable");
        }
        _ => panic!("expected VersionQueryFailed"),
    }
    assert!(!resolver.confirmed_present);
}

#[test]
fn version_query_failure_with_stale_copy_falls_back() {
    let session = ProvisionState::new();
    let (mut resolver, step) = Resolver::start(SERVER, ROOT, &session);
    assert!(matches!(pending(step), Action::LookupOnPath { .. }));
    let _ = resolver.next(Event::PathLookup { found: None });
    let step = resolver.next(Event::LocalFile { exists: true });
    assert!(matches!(pending(step), Action::ReportStatus { .. }));
    let step = resolver.next(Event::StatusReported);
    assert!(matches!(pending(step), Action::QueryLatestVersion { .. }));
    let step = resolver.next(Event::LatestVersion { result: Err("offline".to_string()) });
    assert!(resolver.confirmed_present);
    let descriptor = finish_launch(&mut resolver, step, "/ext", "/usr/bin/node");
    assert_eq!(descriptor.args[1], LOCAL);
}

#[test]
fn stale_copy_survives_failed_installation() {
    let session = ProvisionState::new();
    let (mut resolver, step) = Resolver::start(SERVER, ROOT, &session);
    assert!(matches!(pending(step), Action::LookupOnPath { .. }));
    let _ = resolver.next(Event::PathLookup { found: None });
    let step = resolver.next(Event::LocalFile { exists: true });
    assert!(matches!(pending(step), Action::ReportStatus { .. }));
    let step = resolver.next(Event::StatusReported);
    assert!(matches!(pending(step), Action::QueryLatestVersion { .. }));
    let step = resolver.next(Event::LatestVersion { result: Ok("1.12.0".to_string()) });
    match pending(step) {
        Action::QueryInstalledVersion { package } => assert_eq!(package, "intelephense"),
        _ => panic!("expected the installed-version probe"),
    }
    let step = resolver.next(Event::InstalledVersion { version: Some("1.11.0".to_string()) });
    match pending(step) {
        Action::ReportStatus { status } => assert!(matches!(status, StatusReport::Downloading)),
        _ => panic!("expected the downloading report"),
    }
    let step = resolver.next(Event::StatusReported);
    match pending(step) {
        Action::Install { package, version } => {
            assert_eq!(package, "intelephense");
            assert_eq!(version, "1.12.0");
        }
        _ => panic!("expected the installation"),
    }
    let step = resolver.next(Event::Installed { result: Err("download failed".to_string()) });
    assert!(matches!(pending(step), Action::CheckLocalFile { .. }));
    let step = resolver.next(Event::LocalFile { exists: true });
    // The fallback is honored and the session is marked confirmed.
    assert!(resolver.confirmed_present);
    let descriptor = finish_launch(&mut resolver, step, "/ext", "/usr/bin/node");
    assert_eq!(descriptor.command, "/usr/bin/node");
    assert_eq!(descriptor.args[1], LOCAL);
}

#[test]
fn install_failure_without_copy_propagates() {
    let session = ProvisionState::new();
    let (mut resolver, step) = Resolver::start(SERVER, ROOT, &session);
    assert!(matches!(pending(step), Action::LookupOnPath { .. }));
    let _ = resolver.next(Event::PathLookup { found: None });
    let _ = resolver.next(Event::LocalFile { exists: false });
    let _ = resolver.next(Event::StatusReported);
    let _ = resolver.next(Event::LatestVersion { result: Ok("1.12.0".to_string()) });
    let _ = resolver.next(Event::InstalledVersion { version: None });
    let step = resolver.next(Event::StatusReported);
    assert!(matches!(pending(step), Action::Install { .. }));
    let step = resolver.next(Event::Installed { result: Err("disk full".to_string()) });
    assert!(matches!(pending(step), Action::CheckLocalFile { .. }));
    let step = resolver.next(Event::LocalFile { exists: false });
    match done(step) {
        Err(LaunchError::InstallFailed { message }) => assert_eq!(message, "disk full"),
        _ => panic!("expected InstallFailed"),
    }
    assert!(!resolver.confirmed_present);
}

#[test]
fn missing_file_after_successful_install_fails() {
    let session = ProvisionState::new();
    let (mut resolver, step) = Resolver::start(SERVER, ROOT, &session);
    assert!(matches!(pending(step), Action::LookupOnPath { .. }));
    let _ = resolver.next(Event::PathLookup { found: None });
    let _ = resolver.next(Event::LocalFile { exists: false });
    let _ = resolver.next(Event::StatusReported);
    let _ = resolver.next(Event::LatestVersion { result: Ok("1.12.0".to_string()) });
    let _ = resolver.next(Event::InstalledVersion { version: None });
    let step = resolver.next(Event::StatusReported);
    assert!(matches!(pending(step), Action::Install { .. }));
    let step = resolver.next(Event::Installed { result: Ok(()) });
    assert!(matches!(pending(step), Action::CheckLocalFile { .. }));
    let step = resolver.next(Event::LocalFile { exists: false });
    match done(step) {
        Err(LaunchError::InstalledPathMissingAfterInstall) => {}
        _ => panic!("expected InstalledPathMissingAfterInstall"),
    }
    let err = LaunchError::InstalledPathMissingAfterInstall;
    assert_eq!(
        err.describe(),
        "installed package 'intelephense' did not contain expected path \
         'node_modules/intelephense/lib/intelephense.js'"
    );
}

#[test]
fn fresh_install_success_launches_bridged() {
    let session = ProvisionState::new();
    let (mut resolver, step) = Resolver::start(SERVER, ROOT, &session);
    assert!(matches!(pending(step), Action::LookupOnPath { .. }));
    let _ = resolver.next(Event::PathLookup { found: None });
    let _ = resolver.next(Event::LocalFile { exists: false });
    let _ = resolver.next(Event::StatusReported);
    let _ = resolver.next(Event::LatestVersion { result: Ok("1.12.0".to_string()) });
    let _ = resolver.next(Event::InstalledVersion { version: None });
    let step = resolver.next(Event::StatusReported);
    assert!(matches!(pending(step), Action::Install { .. }));
    let _ = resolver.next(Event::Installed { result: Ok(()) });
    let step = resolver.next(Event::LocalFile { exists: true });
    assert!(resolver.confirmed_present);
    let descriptor = finish_launch(&mut resolver, step, "/opt/zed/ext", "/usr/bin/node");
    assert_eq!(descriptor.command, "/usr/bin/node");
    assert_eq!(
        descriptor.args,
        vec!["/opt/zed/ext/lsp-proxy/proxy.js".to_string(), LOCAL.to_string()]
    );
}

#[test]
fn up_to_date_copy_skips_installation() {
    let session = ProvisionState::new();
    let (mut resolver, step) = Resolver::start(SERVER, ROOT, &session);
    assert!(matches!(pending(step), Action::LookupOnPath { .. }));
    let _ = resolver.next(Event::PathLookup { found: None });
    let _ = resolver.next(Event::LocalFile { exists: true });
    let _ = resolver.next(Event::StatusReported);
    let _ = resolver.next(Event::LatestVersion { result: Ok("1.12.0".to_string()) });
    let step = resolver.next(Event::InstalledVersion { version: Some("1.12.0".to_string()) });
    // Same version: no downloading report, no installation.
    assert!(matches!(pending(step), Action::LocateSelf));
    assert!(resolver.confirmed_present);
}

#[test]
fn self_location_failure_is_fatal() {
    let session = ProvisionState { confirmed_present: true };
    let (mut resolver, step) = Resolver::start(SERVER, ROOT, &session);
    assert!(matches!(pending(step), Action::LookupOnPath { .. }));
    let _ = resolver.next(Event::PathLookup { found: None });
    let step = resolver.next(Event::LocalFile { exists: true });
    assert!(matches!(pending(step), Action::LocateSelf));
    let step = resolver.next(Event::SelfLocation { directory: None });
    match done(step) {
        Err(LaunchError::SelfLocationUnavailable) => {}
        _ => panic!("expected SelfLocationUnavailable"),
    }
}

#[test]
fn confirmed_session_warms_the_next_call() {
    // First call: fresh session, full provisioning.
    let mut session = ProvisionState::new();
    let (mut resolver, step) = Resolver::start(SERVER, ROOT, &session);
    assert!(matches!(pending(step), Action::LookupOnPath { .. }));
    let _ = resolver.next(Event::PathLookup { found: None });
    let _ = resolver.next(Event::LocalFile { exists: false });
    let _ = resolver.next(Event::StatusReported);
    let _ = resolver.next(Event::LatestVersion { result: Ok("2.0.0".to_string()) });
    let _ = resolver.next(Event::InstalledVersion { version: None });
    let step = resolver.next(Event::StatusReported);
    assert!(matches!(pending(step), Action::Install { .. }));
    let _ = resolver.next(Event::Installed { result: Ok(()) });
    let step = resolver.next(Event::LocalFile { exists: true });
    let _ = finish_launch(&mut resolver, step, "/ext", "/usr/bin/node");
    session.confirmed_present = resolver.confirmed_present;
    assert!(session.confirmed_present);

    // Second call in the same session: no registry action at all.
    let (mut resolver, step) = Resolver::start(SERVER, ROOT, &session);
    assert!(matches!(pending(step), Action::LookupOnPath { .. }));
    let step = resolver.next(Event::PathLookup { found: None });
    assert!(matches!(pending(step), Action::CheckLocalFile { .. }));
    let step = resolver.next(Event::LocalFile { exists: true });
    assert!(matches!(pending(step), Action::LocateSelf));
}

#[test]
fn accepts_matches_the_waiting_phase() {
    let session = ProvisionState::new();
    let (mut resolver, step) = Resolver::start(SERVER, ROOT, &session);
    assert!(matches!(pending(step), Action::LookupOnPath { .. }));
    assert!(resolver.accepts(&Event::PathLookup { found: None }));
    assert!(!resolver.accepts(&Event::LocalFile { exists: true }));
    assert!(!resolver.accepts(&Event::StatusReported));
    let _ = resolver.next(Event::PathLookup { found: None });
    assert!(resolver.accepts(&Event::LocalFile { exists: true }));
    assert!(!resolver.accepts(&Event::PathLookup { found: None }));
}

#[test]
fn fresh_provision_state_is_unconfirmed() {
    let session = ProvisionState::new();
    assert!(!session.confirmed_present);
}
