use game_launcher::platform::{SDKOperatingSystem, SDKPlatform};

#[test]
fn operating_system_by_the_name_of_the_host() {
    assert_eq!(SDKOperatingSystem::from_name("windows"), SDKOperatingSystem::Windows);
    assert_eq!(SDKOperatingSystem::from_name("linux"), SDKOperatingSystem::Linux);
    assert_eq!(SDKOperatingSystem::from_name("macos"), SDKOperatingSystem::MacOS);
}

#[test]
fn three_operating_systems_are_supported() {
    assert!(SDKOperatingSystem::is_supported("windows"));
    assert!(SDKOperatingSystem::is_supported("linux"));
    assert!(SDKOperatingSystem::is_supported("macos"));
    assert!(!SDKOperatingSystem::is_supported("freebsd"));
    assert!(!SDKOperatingSystem::is_supported("Linux"));
    assert!(!SDKOperatingSystem::is_supported(""));
}

#[test]
fn operating_system_by_the_key_of_the_manifest() {
    assert_eq!(SDKOperatingSystem::from_key("win"), Some(SDKOperatingSystem::Windows));
    assert_eq!(SDKOperatingSystem::from_key("Windows"), Some(SDKOperatingSystem::Windows));
    assert_eq!(SDKOperatingSystem::from_key("lin"), Some(SDKOperatingSystem::Linux));
    assert_eq!(SDKOperatingSystem::from_key("Linux"), Some(SDKOperatingSystem::Linux));
    assert_eq!(SDKOperatingSystem::from_key("mac"), Some(SDKOperatingSystem::MacOS));
    assert_eq!(SDKOperatingSystem::from_key("MacOS"), Some(SDKOperatingSystem::MacOS));
    assert_eq!(SDKOperatingSystem::from_key("macos"), None);
}

#[test]
fn platform_by_the_names_of_the_host() {
    assert_eq!(SDKPlatform::detect("windows", "x86"), SDKPlatform::WinX86);
    assert_eq!(SDKPlatform::detect("windows", "x86_64"), SDKPlatform::WinX64);
    assert_eq!(SDKPlatform::detect("linux", "x86_64"), SDKPlatform::LinX64);
    assert_eq!(SDKPlatform::detect("linux", "arm"), SDKPlatform::LinArm);
    assert_eq!(SDKPlatform::detect("macos", "x86_64"), SDKPlatform::MacX64);
    assert_eq!(SDKPlatform::detect("macos", "arm"), SDKPlatform::MacArm);
}

#[test]
fn six_platforms_are_supported() {
    let supported = [
        ("windows", "x86"),
        ("windows", "x86_64"),
        ("linux", "x86_64"),
        ("linux", "arm"),
        ("macos", "x86_64"),
        ("macos", "arm"),
    ];
    for os in ["windows", "linux", "macos", "freebsd", ""] {
        for arch in ["x86", "x86_64", "arm", "aarch64", ""] {
            assert_eq!(SDKPlatform::is_supported(os, arch), supported.contains(&(os, arch)), "{} {}", os, arch);
        }
    }
}

#[test]
fn a_detected_platform_runs_the_named_operating_system() {
    for (os, arch) in [("windows", "x86"), ("linux", "arm"), ("macos", "x86_64")] {
        assert_eq!(SDKPlatform::detect(os, arch).operating_system(), SDKOperatingSystem::from_name(os));
    }
}

#[test]
fn platform_by_the_key_of_the_manifest() {
    let pairs = [
        ("WinX64", "win-x64", SDKPlatform::WinX64),
        ("WinX86", "win-x86", SDKPlatform::WinX86),
        ("LinX64", "lin-x64", SDKPlatform::LinX64),
        ("LinArm", "lin-arm", SDKPlatform::LinArm),
        ("MacX64", "mac-x64", SDKPlatform::MacX64),
        ("MacArm", "mac-arm", SDKPlatform::MacArm),
    ];
    for (name, short, platform) in pairs.iter() {
        assert_eq!(SDKPlatform::from_key(name), Some(*platform));
        assert_eq!(SDKPlatform::from_key(short), Some(*platform));
        assert_eq!(platform.label(), *name);
    }
    assert_eq!(SDKPlatform::from_key("win-arm"), None);
}

#[test]
fn a_platform_runs_its_operating_system() {
    assert_eq!(SDKPlatform::WinX64.operating_system(), SDKOperatingSystem::Windows);
    assert_eq!(SDKPlatform::WinX86.operating_system(), SDKOperatingSystem::Windows);
    assert_eq!(SDKPlatform::LinX64.operating_system(), SDKOperatingSystem::Linux);
    assert_eq!(SDKPlatform::LinArm.operating_system(), SDKOperatingSystem::Linux);
    assert_eq!(SDKPlatform::MacX64.operating_system(), SDKOperatingSystem::MacOS);
    assert_eq!(SDKPlatform::MacArm.operating_system(), SDKOperatingSystem::MacOS);
}

#[test]
fn path_lists_are_parted_by_the_separator_of_the_host() {
    assert_eq!(SDKOperatingSystem::Linux.path_separator(), ":");
    assert_eq!(SDKOperatingSystem::MacOS.path_separator(), ":");
    assert_eq!(SDKOperatingSystem::Windows.path_separator(), ";");
    assert!(SDKOperatingSystem::Windows.spawns_detached());
    assert!(!SDKOperatingSystem::Linux.spawns_detached());
    assert!(!SDKOperatingSystem::MacOS.spawns_detached());
}
