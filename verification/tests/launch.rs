use game_launcher::error::Error;
use game_launcher::game::{GameConfig, GameMetadata};
use game_launcher::launch::{
    exit_outcome, prepare_run, run_with_sdk, step, LaunchAction, LaunchEvent, LaunchState,
};
use game_launcher::platform::SDKOperatingSystem;
use game_launcher::sdk::{SDKDownloadInfo, SDKExecutablePaths, SDKInfo, SDK};
use game_launcher::util::get_classpath;
use game_launcher::version::{SdkVersion, VersionConstraint};

fn build(version: &str, inner: Option<&str>) -> SDKInfo {
    SDKInfo {
        download: SDKDownloadInfo::new(),
        version: SdkVersion::parse(version).unwrap(),
        date: "2024-01-01".to_string(),
        executable_path: "bin/java".to_string(),
        executable_paths: SDKExecutablePaths::new(),
        inner_path: inner.map(|s| s.to_string()),
    }
}

fn config() -> GameConfig {
    GameConfig {
        classpath: vec!["lib/a.jar".to_string(), "lib/b.jar".to_string()],
        sdk: SDK {
            version: String::new(),
            versions: VersionConstraint::parse("^17").unwrap(),
            sdk_type: "java".to_string(),
        },
        main_class: "com.example.Main".to_string(),
        game: "foo".to_string(),
    }
}

fn report(action: LaunchAction) -> (bool, Error) {
    match action {
        LaunchAction::Report { restore_window, error } => (restore_window, error),
        other => panic!("not a report: {:?}", other),
    }
}

#[test]
fn executable_lies_under_the_install_directory() {
    let data = "/data".to_string();
    let plain = build("17.0.2", None);
    assert_eq!(
        prepare_run(&plain, &config(), &data, SDKOperatingSystem::Linux),
        "/data/sdks/java/17.0.2/bin/java"
    );
    let nested = build("17.0.2", Some("jdk-17.0.2"));
    assert_eq!(
        prepare_run(&nested, &config(), &data, SDKOperatingSystem::Linux),
        "/data/sdks/java/17.0.2/jdk-17.0.2/bin/java"
    );
}

#[test]
fn executable_of_an_operating_system_wins_over_the_common_one() {
    let data = "/data".to_string();
    let mut b = build("17.0.2", None);
    b.executable_paths.set(SDKOperatingSystem::Windows, "bin/java.exe".to_string());
    assert_eq!(
        prepare_run(&b, &config(), &data, SDKOperatingSystem::Windows),
        "/data/sdks/java/17.0.2/bin/java.exe"
    );
    assert_eq!(
        prepare_run(&b, &config(), &data, SDKOperatingSystem::MacOS),
        "/data/sdks/java/17.0.2/bin/java"
    );
    assert_eq!(b.executable_for(SDKOperatingSystem::Windows), "bin/java.exe");
    assert_eq!(b.executable_for(SDKOperatingSystem::Linux), "bin/java");
}

#[test]
fn command_runs_the_main_class_on_the_classpath() {
    let data = "/data".to_string();
    let cfg = config();
    let cp = get_classpath(&cfg, GameMetadata { version: "1.0".to_string() }, &data);
    let cmd = run_with_sdk(&build("17.0.2", None), &cfg, &data, cp, SDKOperatingSystem::Linux);
    assert_eq!(cmd.program, "/data/sdks/java/17.0.2/bin/java");
    assert_eq!(
        cmd.args,
        vec![
            "-cp",
            "/data/lib/a.jar:/data/lib/b.jar:/data/games/foo/versions/1.0/1.0.jar",
            "com.example.Main"
        ]
    );
    assert_eq!(cmd.working_dir, "/data/games/foo");
    assert!(!cmd.detached);
}

#[test]
fn command_on_windows_is_detached_and_joined_by_semicolons() {
    let data = "C:/d".to_string();
    let cfg = config();
    let cp = get_classpath(&cfg, GameMetadata { version: "1.0".to_string() }, &data);
    let cmd = run_with_sdk(&build("17.0.2", None), &cfg, &data, cp, SDKOperatingSystem::Windows);
    assert_eq!(cmd.args[1], "C:/d/lib/a.jar;C:/d/lib/b.jar;C:/d/games/foo/versions/1.0/1.0.jar");
    assert!(cmd.detached);
}

#[test]
fn exit_code_zero_ends_the_launcher() {
    assert!(exit_outcome(Some(0)).is_ok());
    let (next, action) = step(LaunchState::Running, LaunchEvent::Exited(Some(0)));
    assert_eq!(next, LaunchState::Succeeded);
    match action {
        LaunchAction::ExitLauncher(code) => assert_eq!(code, 0),
        other => panic!("unexpected {:?}", other),
    }
}

#[test]
fn exit_code_one_leaves_the_launcher_with_an_error_naming_it() {
    let (next, action) = step(LaunchState::Running, LaunchEvent::Exited(Some(1)));
    assert_eq!(next, LaunchState::Crashed);
    let (restore, error) = report(action);
    assert!(restore);
    assert_eq!(error.describe(), "Launch error: Game crashed, exit code: 1");
    match error {
        Error::Launch(s) => assert_eq!(s, "Game crashed, exit code: 1"),
        other => panic!("unexpected {:?}", other),
    }
}

#[test]
fn exit_outcome_names_any_code() {
    for (code, text) in [(1, "1"), (-1, "-1"), (137, "137"), (i32::MIN, "-2147483648"), (i32::MAX, "2147483647")] {
        match exit_outcome(Some(code)) {
            Err(Error::Launch(s)) => assert_eq!(s, format!("Game crashed, exit code: {}", text)),
            other => panic!("unexpected {:?}", other),
        }
    }
}

#[test]
fn an_installed_build_goes_straight_to_the_spawn() {
    let mut actions: Vec<String> = Vec::new();
    let mut state = LaunchState::Idle;
    for event in [
        LaunchEvent::Requested,
        LaunchEvent::Resolved,
        LaunchEvent::AlreadyInstalled,
        LaunchEvent::ClasspathBuilt,
        LaunchEvent::Spawned,
    ] {
        let (next, action) = step(state, event);
        actions.push(format!("{:?}", action));
        state = next;
    }
    assert_eq!(state, LaunchState::Running);
    assert_eq!(actions, vec!["Resolve", "CheckInstalled", "BuildClasspath", "HideWindowAndSpawn", "Wait"]);
    assert!(!actions.iter().any(|a| a == "DownloadAndUnpack"));
}

#[test]
fn a_missing_build_is_downloaded_before_the_classpath() {
    let (s1, a1) = step(LaunchState::Provisioning, LaunchEvent::InstallPlanned);
    assert_eq!(s1, LaunchState::Provisioning);
    assert!(matches!(a1, LaunchAction::DownloadAndUnpack));
    let (s2, a2) = step(s1, LaunchEvent::Installed);
    assert_eq!(s2, LaunchState::BuildingClasspath);
    assert!(matches!(a2, LaunchAction::BuildClasspath));
}

#[test]
fn failures_before_the_spawn_keep_the_window_as_it_is() {
    let (s, a) = step(
        LaunchState::ResolvingVersion,
        LaunchEvent::ResolveFailed(Error::Launch("Unknown SDK type: x".to_string())),
    );
    assert_eq!(s, LaunchState::Crashed);
    let (restore, error) = report(a);
    assert!(!restore);
    assert_eq!(error.describe(), "Launch error: Unknown SDK type: x");

    let (s, a) = step(LaunchState::Provisioning, LaunchEvent::ProvisionFailed("no disk".to_string()));
    assert_eq!(s, LaunchState::Crashed);
    let (restore, error) = report(a);
    assert!(!restore);
    assert_eq!(error.describe(), "Launch error: no disk");
}

#[test]
fn failures_while_the_window_is_hidden_show_it_again() {
    let (s, a) = step(LaunchState::Spawning, LaunchEvent::SpawnFailed("not found".to_string()));
    assert_eq!(s, LaunchState::Crashed);
    let (restore, error) = report(a);
    assert!(restore);
    assert_eq!(error.describe(), "Launch error: Game Crashed: not found");

    let (s, a) = step(LaunchState::Running, LaunchEvent::WaitFailed("gone".to_string()));
    assert_eq!(s, LaunchState::Crashed);
    let (restore, error) = report(a);
    assert!(restore);
    assert_eq!(error.describe(), "Launch error: Game Crashed: gone");
}

#[test]
fn events_that_do_not_belong_change_nothing() {
    let (s, a) = step(LaunchState::Idle, LaunchEvent::Exited(Some(0)));
    assert_eq!(s, LaunchState::Idle);
    assert!(matches!(a, LaunchAction::Nothing));
    let (s, a) = step(LaunchState::Crashed, LaunchEvent::Requested);
    assert_eq!(s, LaunchState::Crashed);
    assert!(matches!(a, LaunchAction::Nothing));
    let (s, a) = step(LaunchState::Succeeded, LaunchEvent::Exited(Some(3)));
    assert_eq!(s, LaunchState::Succeeded);
    assert!(matches!(a, LaunchAction::Nothing));
    let (s, a) = step(LaunchState::BuildingClasspath, LaunchEvent::InstallPlanned);
    assert_eq!(s, LaunchState::BuildingClasspath);
    assert!(matches!(a, LaunchAction::Nothing));
}

#[test]
fn an_end_without_exit_code_is_a_crash() {
    match exit_outcome(None) {
        Err(Error::Launch(s)) => assert_eq!(s, "Game Crashed: The process ended without an exit code"),
        other => panic!("unexpected {:?}", other),
    }
    let (next, action) = step(LaunchState::Running, LaunchEvent::Exited(None));
    assert_eq!(next, LaunchState::Crashed);
    let (restore, error) = report(action);
    assert!(restore);
    assert_eq!(error.describe(), "Launch error: Game Crashed: The process ended without an exit code");
}
