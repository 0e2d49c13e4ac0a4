//! The host on which the launcher runs: operating system and target platform.
//!
//! Nothing here reads the machine. The caller hands in the names under which
//! the host knows its operating system and its processor, and gets back the
//! variant that the manifest of runtimes is keyed by. The launcher supports
//! three operating systems and six platforms: a caller asks whether its
//! host is one of them before it asks which.

use vstd::prelude::*;
use crate::text::text_eq;

verus! {

/// An operating system for which a runtime names an executable.
#[derive(Debug, Clone, Copy, PartialEq, Eq, Structural, Hash)]
pub enum SDKOperatingSystem {
    Windows,
    Linux,
    MacOS,
}

/// A target platform for which a runtime offers a download.
#[derive(Debug, Clone, Copy, PartialEq, Eq, Structural, Hash)]
pub enum SDKPlatform {
    WinX64,
    WinX86,
    LinX64,
    LinArm,
    MacX64,
    MacArm,
}

/// The operating system that a host calls `name`.
pub open spec fn os_named(name: Seq<char>) -> Option<SDKOperatingSystem> {
    if name == "windows"@ {
        Some(SDKOperatingSystem::Windows)
    } else if name == "linux"@ {
        Some(SDKOperatingSystem::Linux)
    } else if name == "macos"@ {
        Some(SDKOperatingSystem::MacOS)
    } else {
        None
    }
}

/// The operating system that a manifest writes as `key`: the name of the
/// variant or its short form.
pub open spec fn os_keyed(key: Seq<char>) -> Option<SDKOperatingSystem> {
    if key == "Windows"@ || key == "win"@ {
        Some(SDKOperatingSystem::Windows)
    } else if key == "Linux"@ || key == "lin"@ {
        Some(SDKOperatingSystem::Linux)
    } else if key == "MacOS"@ || key == "mac"@ {
        Some(SDKOperatingSystem::MacOS)
    } else {
        None
    }
}

/// The platform of a host that names its operating system `os` and its
/// processor `arch`.
pub open spec fn platform_named(os: Seq<char>, arch: Seq<char>) -> Option<SDKPlatform> {
    match os_named(os) {
        Some(SDKOperatingSystem::Windows) => if arch == "x86"@ {
            Some(SDKPlatform::WinX86)
        } else if arch == "x86_64"@ {
            Some(SDKPlatform::WinX64)
        } else {
            None
        },
        Some(SDKOperatingSystem::Linux) => if arch == "x86_64"@ {
            Some(SDKPlatform::LinX64)
        } else if arch == "arm"@ {
            Some(SDKPlatform::LinArm)
        } else {
            None
        },
        Some(SDKOperatingSystem::MacOS) => if arch == "x86_64"@ {
            Some(SDKPlatform::MacX64)
        } else if arch == "arm"@ {
            Some(SDKPlatform::MacArm)
        } else {
            None
        },
        None => None,
    }
}

/// The platform that a manifest writes as `key`: the name of the variant
/// or its short form.
pub open spec fn platform_keyed(key: Seq<char>) -> Option<SDKPlatform> {
    if key == "WinX64"@ || key == "win-x64"@ {
        Some(SDKPlatform::WinX64)
    } else if key == "WinX86"@ || key == "win-x86"@ {
        Some(SDKPlatform::WinX86)
    } else if key == "LinX64"@ || key == "lin-x64"@ {
        Some(SDKPlatform::LinX64)
    } else if key == "LinArm"@ || key == "lin-arm"@ {
        Some(SDKPlatform::LinArm)
    } else if key == "MacX64"@ || key == "mac-x64"@ {
        Some(SDKPlatform::MacX64)
    } else if key == "MacArm"@ || key == "mac-arm"@ {
        Some(SDKPlatform::MacArm)
    } else {
        None
    }
}

impl SDKOperatingSystem {
    /// Whether the launcher supports a host that calls its operating
    /// system `name`.
    pub fn is_supported(name: &str) -> (supported: bool)
        ensures
            supported == (os_named(name@) is Some),
    {
        text_eq(name, "windows") || text_eq(name, "linux") || text_eq(name, "macos")
    }

    /// The operating system of a host that calls it `name`. The host is
    /// one that the launcher supports.
    pub fn from_name(name: &str) -> (os: SDKOperatingSystem)
        requires
            os_named(name@) is Some,
        ensures
            Some(os) == os_named(name@),
    {
        if text_eq(name, "windows") {
            SDKOperatingSystem::Windows
        } else if text_eq(name, "linux") {
            SDKOperatingSystem::Linux
        } else {
            SDKOperatingSystem::MacOS
        }
    }

    /// The operating system that a manifest writes as `key`.
    pub fn from_key(key: &str) -> (os: Option<SDKOperatingSystem>)
        ensures
            os == os_keyed(key@),
    {
        if text_eq(key, "Windows") || text_eq(key, "win") {
            Some(SDKOperatingSystem::Windows)
        } else if text_eq(key, "Linux") || text_eq(key, "lin") {
            Some(SDKOperatingSystem::Linux)
        } else if text_eq(key, "MacOS") || text_eq(key, "mac") {
            Some(SDKOperatingSystem::MacOS)
        } else {
            None
        }
    }

    /// The text that parts the entries of a list of paths: `;` on Windows,
    /// `:` elsewhere.
    pub open spec fn spec_path_separator(self) -> Seq<char> {
        match self {
            SDKOperatingSystem::Windows => ";"@,
            _ => ":"@,
        }
    }

    /// The text that parts the entries of a list of paths on this system.
    pub fn path_separator(&self) -> (sep: &'static str)
        ensures
            sep@ == self.spec_path_separator(),
    {
        match self {
            SDKOperatingSystem::Windows => ";",
            _ => ":",
        }
    }

    /// Whether a process is started detached from the launcher, so that it
    /// outlives it: on Windows only.
    pub fn spawns_detached(&self) -> (detached: bool)
        ensures
            detached == (*self == SDKOperatingSystem::Windows),
    {
        match self {
            SDKOperatingSystem::Windows => true,
            _ => false,
        }
    }
}

impl SDKPlatform {
    /// Whether the launcher supports a host that names its operating
    /// system `os` and its processor `arch`.
    pub fn is_supported(os: &str, arch: &str) -> (supported: bool)
        ensures
            supported == (platform_named(os@, arch@) is Some),
    {
        if !SDKOperatingSystem::is_supported(os) {
            return false;
        }
        match SDKOperatingSystem::from_name(os) {
            SDKOperatingSystem::Windows => text_eq(arch, "x86") || text_eq(arch, "x86_64"),
            SDKOperatingSystem::Linux => text_eq(arch, "x86_64") || text_eq(arch, "arm"),
            SDKOperatingSystem::MacOS => text_eq(arch, "x86_64") || text_eq(arch, "arm"),
        }
    }

    /// The platform of a host by the names of its operating system and its
    /// processor. The host is one that the launcher supports.
    pub fn detect(os: &str, arch: &str) -> (platform: SDKPlatform)
        requires
            platform_named(os@, arch@) is Some,
        ensures
            Some(platform) == platform_named(os@, arch@),
            os_named(os@) == Some(platform.spec_operating_system()),
    {
        match SDKOperatingSystem::from_name(os) {
            SDKOperatingSystem::Windows => if text_eq(arch, "x86") {
                SDKPlatform::WinX86
            } else {
                SDKPlatform::WinX64
            },
            SDKOperatingSystem::Linux => if text_eq(arch, "x86_64") {
                SDKPlatform::LinX64
            } else {
                SDKPlatform::LinArm
            },
            SDKOperatingSystem::MacOS => if text_eq(arch, "x86_64") {
                SDKPlatform::MacX64
            } else {
                SDKPlatform::MacArm
            },
        }
    }

    /// The platform that a manifest writes as `key`.
    pub fn from_key(key: &str) -> (platform: Option<SDKPlatform>)
        ensures
            platform == platform_keyed(key@),
    {
        if text_eq(key, "WinX64") || text_eq(key, "win-x64") {
            Some(SDKPlatform::WinX64)
        } else if text_eq(key, "WinX86") || text_eq(key, "win-x86") {
            Some(SDKPlatform::WinX86)
        } else if text_eq(key, "LinX64") || text_eq(key, "lin-x64") {
            Some(SDKPlatform::LinX64)
        } else if text_eq(key, "LinArm") || text_eq(key, "lin-arm") {
            Some(SDKPlatform::LinArm)
        } else if text_eq(key, "MacX64") || text_eq(key, "mac-x64") {
            Some(SDKPlatform::MacX64)
        } else if text_eq(key, "MacArm") || text_eq(key, "mac-arm") {
            Some(SDKPlatform::MacArm)
        } else {
            None
        }
    }

    /// The name of the platform, as a message shows it.
    pub open spec fn spec_label(self) -> Seq<char> {
        match self {
            SDKPlatform::WinX64 => "WinX64"@,
            SDKPlatform::WinX86 => "WinX86"@,
            SDKPlatform::LinX64 => "LinX64"@,
            SDKPlatform::LinArm => "LinArm"@,
            SDKPlatform::MacX64 => "MacX64"@,
            SDKPlatform::MacArm => "MacArm"@,
        }
    }

    /// The name of the platform, as a message shows it.
    pub fn label(&self) -> (name: &'static str)
        ensures
            name@ == self.spec_label(),
    {
        match self {
            SDKPlatform::WinX64 => "WinX64",
            SDKPlatform::WinX86 => "WinX86",
            SDKPlatform::LinX64 => "LinX64",
            SDKPlatform::LinArm => "LinArm",
            SDKPlatform::MacX64 => "MacX64",
            SDKPlatform::MacArm => "MacArm",
        }
    }

    /// The operating system that the platform runs.
    pub open spec fn spec_operating_system(self) -> SDKOperatingSystem {
        match self {
            SDKPlatform::WinX64 | SDKPlatform::WinX86 => SDKOperatingSystem::Windows,
            SDKPlatform::LinX64 | SDKPlatform::LinArm => SDKOperatingSystem::Linux,
            SDKPlatform::MacX64 | SDKPlatform::MacArm => SDKOperatingSystem::MacOS,
        }
    }

    /// The operating system that the platform runs.
    pub fn operating_system(&self) -> (os: SDKOperatingSystem)
        ensures
            os == self.spec_operating_system(),
    {
        match self {
            SDKPlatform::WinX64 | SDKPlatform::WinX86 => SDKOperatingSystem::Windows,
            SDKPlatform::LinX64 | SDKPlatform::LinArm => SDKOperatingSystem::Linux,
            SDKPlatform::MacX64 | SDKPlatform::MacArm => SDKOperatingSystem::MacOS,
        }
    }
}

/// A platform that is detected runs the operating system that the host named.
pub proof fn lemma_platform_runs_named_os(os: Seq<char>, arch: Seq<char>)
    ensures
        platform_named(os, arch) matches Some(p) ==> os_named(os) == Some(
            p.spec_operating_system(),
        ),
{
}

} // verus!
