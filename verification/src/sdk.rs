//! The manifest of runtimes and the choice of a build from it.
//!
//! A manifest lists, for each type of runtime, the builds that exist of it.
//! A game asks for a type and gives a version constraint. Resolution picks
//! the newest build of that type that the constraint admits.

use vstd::prelude::*;
use crate::archive::{archive_kind, extract, extracts, kind_of, ArchiveKind, Extraction};
use crate::error::{Error, ErrorView};
use crate::game::GameConfig;
use crate::platform::{SDKOperatingSystem, SDKPlatform};
use crate::text::{after_last, text_after_last, text_eq};
use crate::util::{child, child_path};
use crate::version::{
    constraint_admits, version_less, version_order_is_total, version_valid, SdkVersion,
    VersionConstraint,
};

verus! {

/// What a game asks of its runtime.
#[derive(Debug)]
pub struct SDK {
    /// A single version, as older configurations name it. Empty where the
    /// configuration names none.
    pub version: String,
    /// The range of versions that the game runs on.
    pub versions: VersionConstraint,
    /// The type of runtime.
    pub sdk_type: String,
}

/// Where a build can be downloaded, for each platform that it exists for.
#[derive(Debug)]
pub struct SDKDownloadInfo {
    pub win_x64: Option<String>,
    pub win_x86: Option<String>,
    pub lin_x64: Option<String>,
    pub lin_arm: Option<String>,
    pub mac_x64: Option<String>,
    pub mac_arm: Option<String>,
}

/// Where the executable of a build lies, for each operating system that
/// has a place of its own.
#[derive(Debug)]
pub struct SDKExecutablePaths {
    pub windows: Option<String>,
    pub linux: Option<String>,
    pub macos: Option<String>,
}

/// One build of a runtime.
#[derive(Debug)]
pub struct SDKInfo {
    /// Where the build can be downloaded.
    pub download: SDKDownloadInfo,
    /// The version of the build, which also names the directory it is installed in.
    pub version: SdkVersion,
    /// The day of its release.
    pub date: String,
    /// Where its executable lies, relative to its root.
    pub executable_path: String,
    /// Where its executable lies on the operating systems that differ.
    pub executable_paths: SDKExecutablePaths,
    /// The directory inside the unpacked archive that is the root of the build.
    pub inner_path: Option<String>,
}

/// The view of an optional text.
pub open spec fn opt_text(s: Option<String>) -> Option<Seq<char>> {
    match s {
        Some(t) => Some(t@),
        None => None,
    }
}

impl SDKDownloadInfo {
    /// The address of the download for `platform`, if there is one.
    pub open spec fn url(&self, platform: SDKPlatform) -> Option<Seq<char>> {
        match platform {
            SDKPlatform::WinX64 => opt_text(self.win_x64),
            SDKPlatform::WinX86 => opt_text(self.win_x86),
            SDKPlatform::LinX64 => opt_text(self.lin_x64),
            SDKPlatform::LinArm => opt_text(self.lin_arm),
            SDKPlatform::MacX64 => opt_text(self.mac_x64),
            SDKPlatform::MacArm => opt_text(self.mac_arm),
        }
    }

    /// Downloads for no platform.
    pub fn new() -> (d: SDKDownloadInfo)
        ensures
            forall|p: SDKPlatform| d.url(p) is None,
    {
        SDKDownloadInfo {
            win_x64: None,
            win_x86: None,
            lin_x64: None,
            lin_arm: None,
            mac_x64: None,
            mac_arm: None,
        }
    }

    /// Sets the address of the download for `platform`, in place of any earlier one.
    pub fn set(&mut self, platform: SDKPlatform, url: String)
        ensures
            final(self).url(platform) == Some(url@),
            forall|p: SDKPlatform| p != platform ==> final(self).url(p) == old(self).url(p),
    {
        match platform {
            SDKPlatform::WinX64 => {
                self.win_x64 = Some(url);
            },
            SDKPlatform::WinX86 => {
                self.win_x86 = Some(url);
            },
            SDKPlatform::LinX64 => {
                self.lin_x64 = Some(url);
            },
            SDKPlatform::LinArm => {
                self.lin_arm = Some(url);
            },
            SDKPlatform::MacX64 => {
                self.mac_x64 = Some(url);
            },
            SDKPlatform::MacArm => {
                self.mac_arm = Some(url);
            },
        }
    }

    /// The address of the download for `platform`, if there is one.
    pub fn get(&self, platform: SDKPlatform) -> (url: Option<&String>)
        ensures
            url is Some <==> self.url(platform) is Some,
            url matches Some(u) ==> self.url(platform) == Some(u@),
    {
        match platform {
            SDKPlatform::WinX64 => self.win_x64.as_ref(),
            SDKPlatform::WinX86 => self.win_x86.as_ref(),
            SDKPlatform::LinX64 => self.lin_x64.as_ref(),
            SDKPlatform::LinArm => self.lin_arm.as_ref(),
            SDKPlatform::MacX64 => self.mac_x64.as_ref(),
            SDKPlatform::MacArm => self.mac_arm.as_ref(),
        }
    }
}

impl SDKExecutablePaths {
    /// The place of the executable on `os`, if it has one of its own.
    pub open spec fn path(&self, os: SDKOperatingSystem) -> Option<Seq<char>> {
        match os {
            SDKOperatingSystem::Windows => opt_text(self.windows),
            SDKOperatingSystem::Linux => opt_text(self.linux),
            SDKOperatingSystem::MacOS => opt_text(self.macos),
        }
    }

    /// No place for any operating system.
    pub fn new() -> (e: SDKExecutablePaths)
        ensures
            forall|os: SDKOperatingSystem| e.path(os) is None,
    {
        SDKExecutablePaths { windows: None, linux: None, macos: None }
    }

    /// Sets the place of the executable on `os`, in place of any earlier one.
    pub fn set(&mut self, os: SDKOperatingSystem, path: String)
        ensures
            final(self).path(os) == Some(path@),
            forall|o: SDKOperatingSystem| o != os ==> final(self).path(o) == old(self).path(o),
    {
        match os {
            SDKOperatingSystem::Windows => {
                self.windows = Some(path);
            },
            SDKOperatingSystem::Linux => {
                self.linux = Some(path);
            },
            SDKOperatingSystem::MacOS => {
                self.macos = Some(path);
            },
        }
    }

    /// The place of the executable on `os`, if it has one of its own.
    pub fn get(&self, os: SDKOperatingSystem) -> (path: Option<&String>)
        ensures
            path is Some <==> self.path(os) is Some,
            path matches Some(p) ==> self.path(os) == Some(p@),
    {
        match os {
            SDKOperatingSystem::Windows => self.windows.as_ref(),
            SDKOperatingSystem::Linux => self.linux.as_ref(),
            SDKOperatingSystem::MacOS => self.macos.as_ref(),
        }
    }
}

impl SDKInfo {
    /// Where the executable lies on `os`, relative to the root of the build:
    /// the place that is set for `os`, else the common one.
    pub open spec fn spec_executable_for(&self, os: SDKOperatingSystem) -> Seq<char> {
        match self.executable_paths.path(os) {
            Some(p) => p,
            None => self.executable_path@,
        }
    }

    /// Where the executable lies on `os`, relative to the root of the build.
    pub fn executable_for(&self, os: SDKOperatingSystem) -> (path: &String)
        ensures
            path@ == self.spec_executable_for(os),
    {
        match self.executable_paths.get(os) {
            Some(p) => p,
            None => &self.executable_path,
        }
    }
}

/// Whether `builds[i]` exists and `constraint` admits its version.
pub open spec fn admitted(builds: Seq<SDKInfo>, constraint: Seq<char>, i: int) -> bool {
    0 <= i < builds.len() && constraint_admits(constraint, builds[i].version@)
}

/// Whether `builds[i]` is the build that resolution picks: the constraint
/// admits it, no other admitted build is newer, and every admitted build
/// that is listed before it is older.
pub open spec fn is_best(builds: Seq<SDKInfo>, constraint: Seq<char>, i: int) -> bool {
    &&& admitted(builds, constraint, i)
    &&& forall|j: int|
        j != i && #[trigger] admitted(builds, constraint, j) ==> !version_less(
            builds[i].version@,
            builds[j].version@,
        )
    &&& forall|j: int|
        j < i && #[trigger] admitted(builds, constraint, j) ==> version_less(
            builds[j].version@,
            builds[i].version@,
        )
}

/// Whether no two of the builds have the same version.
pub open spec fn distinct_versions(builds: Seq<SDKInfo>) -> bool {
    forall|i: int, j: int|
        0 <= i < j < builds.len() ==> (#[trigger] builds[i]).version@ != (
        #[trigger] builds[j]).version@
}

/// Resolution picks at most one build.
pub proof fn lemma_best_is_unique(builds: Seq<SDKInfo>, constraint: Seq<char>, i: int, k: int)
    requires
        is_best(builds, constraint, i),
        is_best(builds, constraint, k),
    ensures
        i == k,
{
    if i < k {
        assert(admitted(builds, constraint, i));
    } else if k < i {
        assert(admitted(builds, constraint, k));
    }
}

/// The build that resolution picks is the newest that the constraint admits:
/// every other admitted build is older or of the same rank.
pub proof fn lemma_best_is_newest(builds: Seq<SDKInfo>, constraint: Seq<char>, i: int, j: int)
    requires
        is_best(builds, constraint, i),
        admitted(builds, constraint, j),
    ensures
        !version_less(builds[i].version@, builds[j].version@) || j == i,
{
}

/// Whether of any two of the builds one is older than the other.
pub open spec fn strictly_ordered(builds: Seq<SDKInfo>) -> bool {
    forall|i: int, j: int|
        0 <= i < builds.len() && 0 <= j < builds.len() && i != j ==> version_less(
            (#[trigger] builds[i]).version@,
            (#[trigger] builds[j]).version@,
        ) || version_less(builds[j].version@, builds[i].version@)
}

/// Whether each of `a` is also one of `b`.
pub open spec fn all_among(a: Seq<SDKInfo>, b: Seq<SDKInfo>) -> bool {
    forall|i: int| 0 <= i < a.len() ==> b.contains(#[trigger] a[i])
}

/// Resolution does not depend on the order in which a manifest lists
/// its builds: two listings of the same builds, of which no two are of the
/// same rank, give the same build.
pub proof fn lemma_resolution_ignores_order(
    first: Seq<SDKInfo>,
    second: Seq<SDKInfo>,
    constraint: Seq<char>,
    i: int,
    k: int,
)
    requires
        all_among(first, second),
        all_among(second, first),
        strictly_ordered(first),
        is_best(first, constraint, i),
        is_best(second, constraint, k),
    ensures
        first[i] == second[k],
{
    assert(first.contains(second[k]));
    let j = choose|j: int| 0 <= j < first.len() && first[j] == second[k];
    assert(second.contains(first[i]));
    let m = choose|m: int| 0 <= m < second.len() && second[m] == first[i];
    if j != i && m != k {
        assert(admitted(first, constraint, j));
        assert(admitted(second, constraint, m));
        assert(!version_less(first[i].version@, first[j].version@));
        assert(!version_less(second[k].version@, second[m].version@));
        assert(version_less(first[i].version@, first[j].version@) || version_less(
            first[j].version@,
            first[i].version@,
        ));
    }
}

/// Whether two listings hold the same builds, in whatever order.
pub open spec fn same_builds(first: Seq<SDKInfo>, second: Seq<SDKInfo>) -> bool {
    all_among(first, second) && all_among(second, first)
}

/// Whether picking from `builds` gives `picked` in whatever order the
/// builds are listed: every listing of the same builds has `picked` as
/// its best.
pub open spec fn picked_in_any_order(
    builds: Seq<SDKInfo>,
    constraint: Seq<char>,
    picked: SDKInfo,
) -> bool {
    forall|other: Seq<SDKInfo>, k: int|
        same_builds(builds, other) && #[trigger] is_best(other, constraint, k) ==> other[k]
            == picked
}

/// Two listings of the same builds fail alike: where the constraint
/// admits none of the one, it admits none of the other.
pub proof fn lemma_no_match_ignores_order(
    first: Seq<SDKInfo>,
    second: Seq<SDKInfo>,
    constraint: Seq<char>,
)
    requires
        same_builds(first, second),
        forall|j: int| !admitted(first, constraint, j),
    ensures
        forall|k: int| !admitted(second, constraint, k),
{
    assert forall|k: int| !admitted(second, constraint, k) by {
        if admitted(second, constraint, k) {
            assert(first.contains(second[k]));
            let j = choose|j: int| 0 <= j < first.len() && first[j] == second[k];
            assert(admitted(first, constraint, j));
        }
    }
}

/// Picks among `builds` the newest that `constraint` admits, the first of
/// them where several are of the same rank. None where it admits none.
///
/// Where no two of the builds have the same version, as in a manifest,
/// the choice does not depend on the order in which they are listed.
pub fn pick_build(builds: &Vec<SDKInfo>, constraint: &VersionConstraint) -> (r: Option<usize>)
    ensures
        r is None <==> forall|j: int| !admitted(builds@, constraint@, j),
        r matches Some(i) ==> is_best(builds@, constraint@, i as int),
        r matches Some(i) ==> distinct_versions(builds@) ==> picked_in_any_order(
            builds@,
            constraint@,
            builds@[i as int],
        ),
{
    let mut best: Option<usize> = None;
    let mut n: usize = 0;
    let ghost mut compared = false;
    while n < builds.len()
        invariant
            n <= builds.len(),
            compared ==> version_order_is_total(),
            !compared ==> forall|a: int, b: int|
                a < n && b < n && #[trigger] admitted(builds@, constraint@, a) && #[trigger] admitted(
                    builds@,
                    constraint@,
                    b,
                ) ==> a == b,
            forall|j: int| 0 <= j < n ==> version_valid(#[trigger] builds@[j].version@),
            best is None ==> forall|j: int| j < n ==> !admitted(builds@, constraint@, j),
            best matches Some(b) ==> b < n && is_best(builds@.take(n as int), constraint@, b as int),
        decreases builds.len() - n,
    {
        let candidate = &builds[n];
        let _text = candidate.version.as_str();
        let ghost before = builds@.take(n as int);
        let ghost now = builds@.take(n + 1);
        proof {
            assert forall|j: int| admitted(before, constraint@, j) == (j < n && admitted(
                now,
                constraint@,
                j,
            )) by {}
            assert forall|j: int| admitted(now, constraint@, j) == (j <= n && admitted(
                builds@,
                constraint@,
                j,
            )) by {}
        }
        if constraint.admits(&candidate.version) {
            match best {
                None => {
                    best = Some(n);
                    assert(is_best(now, constraint@, n as int));
                },
                Some(b) => {
                    let current = &builds[b];
                    let older = current.version.is_older_than(&candidate.version);
                    proof {
                        compared = true;
                    }
                    if older {
                        best = Some(n);
                        proof {
                            let vb = builds@[b as int].version@;
                            let vn = builds@[n as int].version@;
                            assert(admitted(before, constraint@, b as int));
                            assert forall|j: int|
                                j != n && #[trigger] admitted(
                                    now,
                                    constraint@,
                                    j,
                                ) implies !version_less(vn, now[j].version@) by {
                                let vj = builds@[j].version@;
                                assert(admitted(before, constraint@, j));
                                if version_less(vn, vj) {
                                    assert(version_less(vb, vn) && version_less(vn, vj));
                                    assert(version_less(vb, vj));
                                    if j == b {
                                        assert(!version_less(vb, vb));
                                    }
                                }
                            }
                            assert forall|j: int|
                                j < n && #[trigger] admitted(
                                    now,
                                    constraint@,
                                    j,
                                ) implies version_less(now[j].version@, vn) by {
                                let vj = builds@[j].version@;
                                assert(admitted(before, constraint@, j));
                                if j < b {
                                    assert(version_less(vj, vb) && version_less(vb, vn));
                                } else if j > b {
                                    assert(!version_less(vb, vj));
                                    assert(version_less(vb, vn));
                                    assert(version_less(vb, vj) || version_less(vj, vn));
                                }
                            }
                            assert(is_best(now, constraint@, n as int));
                        }
                    } else {
                        proof {
                            assert(admitted(before, constraint@, b as int));
                            assert forall|j: int|
                                j != b && #[trigger] admitted(
                                    now,
                                    constraint@,
                                    j,
                                ) implies !version_less(
                                now[b as int].version@,
                                now[j].version@,
                            ) by {
                                if j < n {
                                    assert(admitted(before, constraint@, j));
                                }
                            }
                            assert forall|j: int|
                                j < b && #[trigger] admitted(
                                    now,
                                    constraint@,
                                    j,
                                ) implies version_less(
                                now[j].version@,
                                now[b as int].version@,
                            ) by {
                                assert(admitted(before, constraint@, j));
                            }
                            assert(is_best(now, constraint@, b as int));
                        }
                    }
                },
            }
        } else {
            proof {
                if let Some(b) = best {
                    assert(admitted(before, constraint@, b as int));
                    assert forall|j: int|
                        j != b && #[trigger] admitted(
                            now,
                            constraint@,
                            j,
                        ) implies !version_less(now[b as int].version@, now[j].version@) by {
                        assert(admitted(before, constraint@, j));
                    }
                    assert forall|j: int|
                        j < b && #[trigger] admitted(now, constraint@, j) implies version_less(
                        now[j].version@,
                        now[b as int].version@,
                    ) by {
                        assert(admitted(before, constraint@, j));
                    }
                    assert(is_best(now, constraint@, b as int));
                }
            }
        }
        n += 1;
    }
    proof {
        assert(builds@.take(n as int) =~= builds@);
        if let Some(i) = best {
            if distinct_versions(builds@) {
                assert forall|other: Seq<SDKInfo>, k: int|
                    same_builds(builds@, other) && #[trigger] is_best(
                        other,
                        constraint@,
                        k,
                    ) implies other[k] == builds@[i as int] by {
                    assert(builds@.contains(other[k]));
                    let j = choose|j: int| 0 <= j < builds@.len() && builds@[j] == other[k];
                    assert(other.contains(builds@[i as int]));
                    let m = choose|m: int| 0 <= m < other.len() && other[m] == builds@[i as int];
                    if j != i && m != k {
                        let vi = builds@[i as int].version@;
                        let vj = builds@[j].version@;
                        assert(admitted(builds@, constraint@, j));
                        assert(admitted(builds@, constraint@, i as int));
                        assert(admitted(other, constraint@, m));
                        assert(compared);
                        assert(version_valid(vi) && version_valid(vj));
                        if j < i {
                            assert(builds@[j].version@ != builds@[i as int].version@);
                        } else {
                            assert(builds@[i as int].version@ != builds@[j].version@);
                        }
                        assert(version_less(vi, vj) || version_less(vj, vi));
                        assert(!version_less(vi, vj));
                        assert(!version_less(other[k].version@, other[m].version@));
                    }
                }
            }
        }
    }
    best
}

/// The builds of one type of runtime.
#[derive(Debug)]
struct SdkFamily {
    name: String,
    builds: Vec<SDKInfo>,
}

/// The manifest of runtimes: for each type, the builds that exist of it,
/// no two of them with the same version.
#[derive(Debug)]
pub struct SDKList {
    families: Vec<SdkFamily>,
}

/// Whether one of the families is named `name`.
spec fn has_family(families: Seq<SdkFamily>, name: Seq<char>) -> bool {
    exists|i: int| 0 <= i < families.len() && (#[trigger] families[i]).name@ == name
}

/// The place of the family named `name`.
spec fn family_index(families: Seq<SdkFamily>, name: Seq<char>) -> int {
    choose|i: int| 0 <= i < families.len() && (#[trigger] families[i]).name@ == name
}

/// No two families have the same name, and no two builds of one family the same version.
spec fn families_well_formed(families: Seq<SdkFamily>) -> bool {
    &&& forall|i: int, j: int|
        0 <= i < j < families.len() ==> (#[trigger] families[i]).name@ != (
        #[trigger] families[j]).name@
    &&& forall|i: int|
        0 <= i < families.len() ==> distinct_versions((#[trigger] families[i]).builds@)
}

/// The types and their builds as a map.
spec fn families_map(families: Seq<SdkFamily>) -> Map<Seq<char>, Seq<SDKInfo>> {
    Map::new(
        |name: Seq<char>| has_family(families, name),
        |name: Seq<char>| families[family_index(families, name)].builds@,
    )
}

/// In a well-formed list the family at place `i` is the one that its name maps to.
proof fn lemma_family_at(families: Seq<SdkFamily>, i: int)
    requires
        families_well_formed(families),
        0 <= i < families.len(),
    ensures
        has_family(families, families[i].name@),
        family_index(families, families[i].name@) == i,
        families_map(families).contains_key(families[i].name@),
        families_map(families)[families[i].name@] == families[i].builds@,
{
    let name = families[i].name@;
    assert(has_family(families, name));
    let k = family_index(families, name);
    assert(0 <= k < families.len() && families[k].name@ == name);
    if k < i {
        assert(families[k].name@ != families[i].name@);
    } else if i < k {
        assert(families[i].name@ != families[k].name@);
    }
}

/// The failure of an entry whose key is not the version of its build.
pub open spec fn key_mismatch(key: Seq<char>) -> ErrorView {
    ErrorView::Fetch("Version key does not agree with the build: "@ + key)
}

/// The failure of an entry whose version the type already has.
pub open spec fn duplicate_build(key: Seq<char>) -> ErrorView {
    ErrorView::Fetch("Version is listed twice: "@ + key)
}

/// The failure of a game that asks for a type that the manifest does not have.
pub open spec fn unknown_type(sdk_type: Seq<char>) -> ErrorView {
    ErrorView::Launch("Unknown SDK type: "@ + sdk_type)
}

/// The failure of a game whose constraint admits no build of its type.
pub open spec fn no_compatible_version(sdk_type: Seq<char>) -> ErrorView {
    ErrorView::Launch("No compatible versions found: "@ + sdk_type)
}

/// Whether one of the builds has the version `version`.
pub open spec fn has_version(builds: Seq<SDKInfo>, version: Seq<char>) -> bool {
    exists|j: int| 0 <= j < builds.len() && (#[trigger] builds[j]).version@ == version
}

/// The builds of `sdk_type` in `manifest`; none where it does not have the type.
pub open spec fn builds_of(manifest: Map<Seq<char>, Seq<SDKInfo>>, sdk_type: Seq<char>) -> Seq<
    SDKInfo,
> {
    if manifest.contains_key(sdk_type) {
        manifest[sdk_type]
    } else {
        Seq::empty()
    }
}

/// What resolution of `sdk_type` under `constraint` gives on `manifest`:
/// the place of the picked build among the builds of the type, or the
/// failure.
pub open spec fn resolution(
    manifest: Map<Seq<char>, Seq<SDKInfo>>,
    sdk_type: Seq<char>,
    constraint: Seq<char>,
) -> Result<int, ErrorView> {
    if !manifest.contains_key(sdk_type) {
        Err(unknown_type(sdk_type))
    } else if forall|j: int| !admitted(manifest[sdk_type], constraint, j) {
        Err(no_compatible_version(sdk_type))
    } else {
        Ok(choose|i: int| is_best(manifest[sdk_type], constraint, i))
    }
}

/// Whether `builds` holds a build of version `version`.
fn holds_version(builds: &Vec<SDKInfo>, version: &str) -> (found: bool)
    ensures
        found == has_version(builds@, version@),
{
    let mut j: usize = 0;
    while j < builds.len()
        invariant
            j <= builds.len(),
            forall|k: int| 0 <= k < j ==> (#[trigger] builds@[k]).version@ != version@,
        decreases builds.len() - j,
    {
        if text_eq(builds[j].version.as_str(), version) {
            return true;
        }
        j += 1;
    }
    false
}

impl View for SDKList {
    type V = Map<Seq<char>, Seq<SDKInfo>>;

    closed spec fn view(&self) -> Map<Seq<char>, Seq<SDKInfo>> {
        families_map(self.families@)
    }
}

impl SDKList {
    #[verifier::type_invariant]
    spec fn well_formed(self) -> bool {
        families_well_formed(self.families@)
    }

    /// A manifest without any type.
    pub fn new() -> (list: SDKList)
        ensures
            list@ == Map::<Seq<char>, Seq<SDKInfo>>::empty(),
    {
        let list = SDKList { families: Vec::new() };
        assert(list@ =~= Map::<Seq<char>, Seq<SDKInfo>>::empty());
        list
    }

    /// The place of the family named `name`.
    fn find(&self, name: &str) -> (r: Option<usize>)
        ensures
            families_well_formed(self.families@),
            r is Some <==> self@.contains_key(name@),
            r matches Some(i) ==> i < self.families.len() && self.families[i as int].name@
                == name@ && self@[name@] == self.families[i as int].builds@,
    {
        proof {
            use_type_invariant(self);
        }
        let mut i: usize = 0;
        while i < self.families.len()
            invariant
                i <= self.families.len(),
                families_well_formed(self.families@),
                forall|k: int| 0 <= k < i ==> (#[trigger] self.families@[k]).name@ != name@,
            decreases self.families.len() - i,
        {
            if text_eq(self.families[i].name.as_str(), name) {
                proof {
                    lemma_family_at(self.families@, i as int);
                }
                return Some(i);
            }
            i += 1;
        }
        None
    }

    /// Whether the manifest has builds of `sdk_type`.
    pub fn has_type(&self, sdk_type: &str) -> (has: bool)
        ensures
            has == self@.contains_key(sdk_type@),
    {
        self.find(sdk_type).is_some()
    }

    /// The builds of `sdk_type`, in the order in which they were listed.
    /// No two of them have the same version.
    pub fn builds(&self, sdk_type: &str) -> (r: Option<&Vec<SDKInfo>>)
        ensures
            r is Some <==> self@.contains_key(sdk_type@),
            r matches Some(b) ==> b@ == self@[sdk_type@] && distinct_versions(b@),
    {
        match self.find(sdk_type) {
            Some(i) => Some(&self.families[i].builds),
            None => None,
        }
    }

    /// Lists `info` as a build of `sdk_type` under `key`, after the builds
    /// that the type already has.
    ///
    /// The key is the text of the version of the build, and a type has one
    /// build of each version: an entry that breaks either rule is refused
    /// and leaves the manifest as it was.
    pub fn insert(&mut self, sdk_type: &str, key: &str, info: SDKInfo) -> (r: Result<(), Error>)
        ensures
            match r {
                Ok(()) => {
                    &&& key@ == info.version@
                    &&& !has_version(builds_of(old(self)@, sdk_type@), key@)
                    &&& final(self)@ == old(self)@.insert(
                        sdk_type@,
                        builds_of(old(self)@, sdk_type@).push(info),
                    )
                },
                Err(e) => {
                    &&& final(self)@ == old(self)@
                    &&& if key@ != info.version@ {
                        e@ == key_mismatch(key@)
                    } else {
                        has_version(builds_of(old(self)@, sdk_type@), key@) && e@
                            == duplicate_build(key@)
                    }
                },
            },
    {
        if !text_eq(key, info.version.as_str()) {
            let mut detail = String::from_str("Version key does not agree with the build: ");
            detail.append(key);
            return Err(Error::Fetch(detail));
        }
        match self.find(sdk_type) {
            Some(i) => {
                if holds_version(&self.families[i].builds, key) {
                    let mut detail = String::from_str("Version is listed twice: ");
                    detail.append(key);
                    return Err(Error::Fetch(detail));
                }
                let ghost before = self.families@;
                let mut families: Vec<SdkFamily> = Vec::new();
                std::mem::swap(&mut self.families, &mut families);
                let mut family = families.remove(i);
                let ghost without = families@;
                family.builds.push(info);
                families.insert(i, family);
                proof {
                    let after = families@;
                    assert(after.len() == before.len());
                    assert forall|k: int| 0 <= k < after.len() implies (#[trigger] after[k]).name@
                        == before[k].name@ && (k != i ==> after[k] == before[k]) by {
                        if k < i {
                            assert(after[k] == without[k]);
                        } else if k > i {
                            assert(after[k] == without[k - 1]);
                        }
                    }
                    assert(after[i as int].builds@ == before[i as int].builds@.push(info));
                    assert(distinct_versions(after[i as int].builds@)) by {
                        let b = before[i as int].builds@;
                        assert(distinct_versions(b));
                        assert forall|x: int, y: int| 0 <= x < y < b.len() + 1 implies (
                        #[trigger] b.push(info)[x]).version@ != (#[trigger] b.push(
                            info,
                        )[y]).version@ by {
                            if y == b.len() {
                                assert(b[x].version@ != key@);
                            } else {
                                assert(b[x].version@ != b[y].version@);
                            }
                        }
                    }
                    assert(families_well_formed(after));
                    assert forall|name: Seq<char>| has_family(after, name) == has_family(
                        before,
                        name,
                    ) by {
                        if has_family(after, name) {
                            let k = family_index(after, name);
                            assert(before[k].name@ == name);
                        }
                        if has_family(before, name) {
                            let k = family_index(before, name);
                            assert(after[k].name@ == name);
                        }
                    }
                    lemma_family_at(before, i as int);
                    lemma_family_at(after, i as int);
                    assert forall|name: Seq<char>| #[trigger]
                        has_family(after, name) && name != sdk_type@ implies families_map(
                        after,
                    )[name] == families_map(before)[name] by {
                        let k = family_index(after, name);
                        lemma_family_at(after, k);
                        lemma_family_at(before, k);
                    }
                    assert(families_map(after) =~= families_map(before).insert(
                        sdk_type@,
                        builds_of(families_map(before), sdk_type@).push(info),
                    ));
                }
                std::mem::swap(&mut self.families, &mut families);
                Ok(())
            },
            None => {
                let ghost before = self.families@;
                let mut families: Vec<SdkFamily> = Vec::new();
                std::mem::swap(&mut self.families, &mut families);
                let mut builds: Vec<SDKInfo> = Vec::new();
                builds.push(info);
                families.push(SdkFamily { name: String::from_str(sdk_type), builds });
                proof {
                    let after = families@;
                    assert(!has_family(before, sdk_type@));
                    assert forall|k: int| 0 <= k < before.len() implies (#[trigger] after[k])
                        == before[k] by {}
                    assert forall|k: int| 0 <= k < before.len() implies (#[trigger] before[k]).name@
                        != sdk_type@ by {}
                    assert(after[before.len() as int].builds@ =~= Seq::<SDKInfo>::empty().push(
                        info,
                    ));
                    assert(families_well_formed(after));
                    assert forall|name: Seq<char>| has_family(after, name) == (has_family(
                        before,
                        name,
                    ) || name == sdk_type@) by {
                        if has_family(after, name) {
                            let k = family_index(after, name);
                            if k < before.len() {
                                assert(before[k].name@ == name);
                            }
                        }
                        if has_family(before, name) {
                            let k = family_index(before, name);
                            assert(after[k].name@ == name);
                        }
                        if name == sdk_type@ {
                            assert(after[before.len() as int].name@ == name);
                        }
                    }
                    lemma_family_at(after, before.len() as int);
                    assert forall|name: Seq<char>| #[trigger]
                        has_family(before, name) implies families_map(after)[name]
                        == families_map(before)[name] by {
                        let k = family_index(before, name);
                        lemma_family_at(before, k);
                        lemma_family_at(after, k);
                    }
                    assert(!has_version(Seq::<SDKInfo>::empty(), key@));
                    assert(families_map(after) =~= families_map(before).insert(
                        sdk_type@,
                        builds_of(families_map(before), sdk_type@).push(info),
                    ));
                }
                std::mem::swap(&mut self.families, &mut families);
                Ok(())
            },
        }
    }

    /// Picks the build for a game that asks for `sdk_type` under
    /// `constraint`: the newest build of that type that the constraint
    /// admits. The choice does not depend on the order in which the
    /// manifest lists the builds of the type.
    ///
    /// Fails where the manifest does not have the type, and where the
    /// constraint admits none of its builds.
    pub fn resolve(&self, sdk_type: &str, constraint: &VersionConstraint) -> (r: Result<
        &SDKInfo,
        Error,
    >)
        ensures
            match r {
                Ok(info) => resolution(self@, sdk_type@, constraint@) matches Ok(i) && is_best(
                    self@[sdk_type@],
                    constraint@,
                    i,
                ) && *info == self@[sdk_type@][i],
                Err(e) => resolution(self@, sdk_type@, constraint@) == Err::<int, ErrorView>(e@),
            },
            r matches Ok(info) ==> picked_in_any_order(self@[sdk_type@], constraint@, *info),
    {
        match self.builds(sdk_type) {
            None => {
                let mut detail = String::from_str("Unknown SDK type: ");
                detail.append(sdk_type);
                Err(Error::Launch(detail))
            },
            Some(builds) => match pick_build(builds, constraint) {
                None => {
                    let mut detail = String::from_str("No compatible versions found: ");
                    detail.append(sdk_type);
                    Err(Error::Launch(detail))
                },
                Some(i) => {
                    proof {
                        let k = choose|k: int| is_best(builds@, constraint@, k);
                        lemma_best_is_unique(builds@, constraint@, i as int, k);
                    }
                    Ok(&builds[i])
                },
            },
        }
    }
}

/// The directory in which the build of `sdk_type` with the version
/// `version` is installed.
pub open spec fn sdk_dir(data_dir: Seq<char>, sdk_type: Seq<char>, version: Seq<char>) -> Seq<
    char,
> {
    child(child(child(data_dir, "sdks"@), sdk_type), version)
}

/// The directory in which downloads are kept.
pub open spec fn temp_dir(data_dir: Seq<char>) -> Seq<char> {
    child(data_dir, "temp"@)
}

/// What installing a build takes.
#[derive(Debug)]
pub struct InstallPlan {
    /// The address that the archive is fetched from.
    pub url: String,
    /// The name of the archive: what follows the last `/` of the address.
    pub archive_name: String,
    /// The directory in which downloads are kept, which is created first.
    pub temp_dir: String,
    /// The file that the archive is downloaded to.
    pub archive_path: String,
    /// The directory that the archive is unpacked into.
    pub output_dir: String,
    /// The format of the archive.
    pub kind: ArchiveKind,
}

/// An [`InstallPlan`] with its texts as sequences of characters.
pub struct InstallPlanView {
    pub url: Seq<char>,
    pub archive_name: Seq<char>,
    pub temp_dir: Seq<char>,
    pub archive_path: Seq<char>,
    pub output_dir: Seq<char>,
    pub kind: ArchiveKind,
}

impl View for InstallPlan {
    type V = InstallPlanView;

    open spec fn view(&self) -> InstallPlanView {
        InstallPlanView {
            url: self.url@,
            archive_name: self.archive_name@,
            temp_dir: self.temp_dir@,
            archive_path: self.archive_path@,
            output_dir: self.output_dir@,
            kind: self.kind,
        }
    }
}

/// What has to be done so that a build is present.
#[derive(Debug)]
pub enum ProvisionPlan {
    /// The build is installed: nothing is fetched and nothing is written.
    AlreadyInstalled,
    /// The build is downloaded and unpacked.
    Install(InstallPlan),
}

/// A [`ProvisionPlan`] with its texts as sequences of characters.
pub enum ProvisionPlanView {
    AlreadyInstalled,
    Install(InstallPlanView),
}

impl View for ProvisionPlan {
    type V = ProvisionPlanView;

    open spec fn view(&self) -> ProvisionPlanView {
        match self {
            ProvisionPlan::AlreadyInstalled => ProvisionPlanView::AlreadyInstalled,
            ProvisionPlan::Install(p) => ProvisionPlanView::Install(p@),
        }
    }
}

/// The words of the failure for a build that has no download for `platform`.
pub open spec fn no_build_for_platform(platform: SDKPlatform) -> Seq<char> {
    "Can't find SDK for platform "@ + platform.spec_label()
}

/// The words of the failure for an archive whose name tells no known format.
pub open spec fn unsupported_archive(name: Seq<char>) -> Seq<char> {
    "Unsupported SDK package: "@ + name
}

/// What has to be done so that the build is present in `output_dir`.
///
/// Where the directory exists nothing is done: its existence alone tells
/// that the build is installed. Else the build is fetched from the address
/// that it has for `platform` and unpacked in the format that the name of
/// the archive tells.
pub open spec fn provision(
    url: Option<Seq<char>>,
    platform: SDKPlatform,
    data_dir: Seq<char>,
    output_dir: Seq<char>,
    installed: bool,
) -> Result<ProvisionPlanView, Seq<char>> {
    if installed {
        Ok(ProvisionPlanView::AlreadyInstalled)
    } else {
        match url {
            None => Err(no_build_for_platform(platform)),
            Some(u) => match kind_of(after_last(u, '/')) {
                None => Err(unsupported_archive(after_last(u, '/'))),
                Some(kind) => Ok(
                    ProvisionPlanView::Install(
                        InstallPlanView {
                            url: u,
                            archive_name: after_last(u, '/'),
                            temp_dir: temp_dir(data_dir),
                            archive_path: child(temp_dir(data_dir), after_last(u, '/')),
                            output_dir,
                            kind,
                        },
                    ),
                ),
            },
        }
    }
}

/// The directory in which the build is installed for the game.
pub open spec fn install_dir_of(sdk_info: SDKInfo, cfg: GameConfig, data_dir: Seq<char>) -> Seq<
    char,
> {
    sdk_dir(data_dir, cfg.sdk.sdk_type@, sdk_info.version@)
}

/// The directory in which the build is installed for the game:
/// `sdks/<type>/<version>` under the data directory.
pub fn install_dir(sdk_info: &SDKInfo, cfg: &GameConfig, data_dir: &str) -> (dir: String)
    ensures
        dir@ == install_dir_of(*sdk_info, *cfg, data_dir@),
{
    let sdks = child_path(data_dir, "sdks");
    let of_type = child_path(sdks.as_str(), cfg.sdk.sdk_type.as_str());
    child_path(of_type.as_str(), sdk_info.version.as_str())
}

/// Decides what has to be done so that the build is present for the game.
///
/// `installed` tells whether the directory that [`install_dir`] names
/// exists. Where it does, nothing is to be done. Else the plan names the
/// download for `platform`; it fails where the build has none, and where
/// the name of the archive tells no known format.
pub fn retrieve_sdk(
    sdk_info: &SDKInfo,
    cfg: &GameConfig,
    data_dir: &str,
    platform: SDKPlatform,
    installed: bool,
) -> (r: Result<ProvisionPlan, String>)
    ensures
        match r {
            Ok(plan) => provision(
                sdk_info.download.url(platform),
                platform,
                data_dir@,
                install_dir_of(*sdk_info, *cfg, data_dir@),
                installed,
            ) == Ok::<ProvisionPlanView, Seq<char>>(plan@),
            Err(words) => provision(
                sdk_info.download.url(platform),
                platform,
                data_dir@,
                install_dir_of(*sdk_info, *cfg, data_dir@),
                installed,
            ) == Err::<ProvisionPlanView, Seq<char>>(words@),
        },
{
    if installed {
        return Ok(ProvisionPlan::AlreadyInstalled);
    }
    let url = match sdk_info.download.get(platform) {
        Some(u) => u,
        None => {
            let mut words = String::from_str("Can't find SDK for platform ");
            words.append(platform.label());
            return Err(words);
        },
    };
    let archive_name = text_after_last(url.as_str(), '/');
    let kind = match archive_kind(archive_name.as_str()) {
        Some(k) => k,
        None => {
            let mut words = String::from_str("Unsupported SDK package: ");
            words.append(archive_name.as_str());
            return Err(words);
        },
    };
    let temp = child_path(data_dir, "temp");
    let archive_path = child_path(temp.as_str(), archive_name.as_str());
    let output_dir = install_dir(sdk_info, cfg, data_dir);
    Ok(
        ProvisionPlan::Install(
            InstallPlan {
                url: url.clone(),
                archive_name,
                temp_dir: temp,
                archive_path,
                output_dir,
                kind,
            },
        ),
    )
}

impl ProvisionPlan {
    /// Whether carrying out the plan installs the build afresh.
    pub fn installs(&self) -> (fresh: bool)
        ensures
            fresh == (self@ is Install),
    {
        match self {
            ProvisionPlan::AlreadyInstalled => false,
            ProvisionPlan::Install(_) => true,
        }
    }
}

impl InstallPlan {
    /// Plans the unpacking of the archive once its bytes are there.
    pub fn unpack(&self, bytes: Vec<u8>) -> (x: Extraction)
        ensures
            extracts(x, self.kind, self.archive_name@, self.output_dir@, bytes@),
    {
        extract(self.kind, self.archive_name.as_str(), &self.output_dir, bytes)
    }
}

/// A build is provisioned once. Asked while its directory does not exist,
/// the plan is to install into that directory, or a failure. Asked again
/// once the directory exists, the plan is to do nothing, whatever the
/// manifest says of downloads.
pub proof fn lemma_provision_is_idempotent(
    url: Option<Seq<char>>,
    platform: SDKPlatform,
    data_dir: Seq<char>,
    output_dir: Seq<char>,
    existing: Set<Seq<char>>,
)
    requires
        !existing.contains(output_dir),
    ensures
        provision(url, platform, data_dir, output_dir, existing.contains(output_dir)) matches Ok(
            first,
        ) ==> first matches ProvisionPlanView::Install(plan) && plan.output_dir == output_dir
            && provision(
            url,
            platform,
            data_dir,
            output_dir,
            existing.insert(plan.output_dir).contains(output_dir),
        ) == Ok::<ProvisionPlanView, Seq<char>>(ProvisionPlanView::AlreadyInstalled),
        forall|other: Option<Seq<char>>|
            provision(other, platform, data_dir, output_dir, true) == Ok::<
                ProvisionPlanView,
                Seq<char>,
            >(ProvisionPlanView::AlreadyInstalled),
{
}

} // verus!
