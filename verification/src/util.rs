//! The rules that the stages of a launch share: which constraint a
//! configuration stands for, where things lie under the data directory, and
//! what the classpath of a game is.

use vstd::prelude::*;
use crate::error::{Error, ErrorView};
use crate::game::{GameConfig, GameMetadata};
use crate::platform::SDKOperatingSystem;
use crate::sdk::{is_best, picked_in_any_order, resolution, SDKInfo, SDKList, SDK};
use crate::text::{join, join_texts, texts, trim_end, trimmed_len, chars_of};
use crate::version::{constraint_any, constraint_valid, VersionConstraint};

verus! {

/// The failure of a configuration whose single version is no version.
pub open spec fn bad_legacy_version(version: Seq<char>) -> ErrorView {
    ErrorView::Launch("Semantic versioning error: "@ + version)
}

/// The constraint that a configuration stands for.
///
/// A configuration that names a range stands for that range. One that
/// names none, and a single version instead, stands for exactly that
/// version. One that names neither stands for any version.
pub open spec fn effective_constraint(sdk: SDK) -> Result<Seq<char>, ErrorView> {
    if !constraint_any(sdk.versions@) || sdk.version@.len() == 0 {
        Ok(sdk.versions@)
    } else if constraint_valid("="@ + sdk.version@) {
        Ok("="@ + sdk.version@)
    } else {
        Err(bad_legacy_version(sdk.version@))
    }
}

/// What the choice of a build for `sdk` gives on `manifest`: the place of
/// the build among the builds of the type, or the failure.
pub open spec fn chosen(manifest: Map<Seq<char>, Seq<SDKInfo>>, sdk: SDK) -> Result<
    int,
    ErrorView,
> {
    match effective_constraint(sdk) {
        Ok(constraint) => resolution(manifest, sdk.sdk_type@, constraint),
        Err(e) => Err(e),
    }
}

/// A configuration that names no range and the single version `v` asks
/// for the same build as one that names the range `=v`, be it that the
/// second names no single version or that its range is told apart from
/// the wildcard.
pub proof fn lemma_legacy_version_is_exact_range(
    manifest: Map<Seq<char>, Seq<SDKInfo>>,
    legacy: SDK,
    ranged: SDK,
)
    requires
        constraint_any(legacy.versions@),
        legacy.version@.len() > 0,
        ranged.versions@ == "="@ + legacy.version@,
        constraint_valid(ranged.versions@),
        ranged.version@.len() == 0 || !constraint_any(ranged.versions@),
        ranged.sdk_type@ == legacy.sdk_type@,
    ensures
        effective_constraint(legacy) == effective_constraint(ranged),
        chosen(manifest, legacy) == chosen(manifest, ranged),
{
}

/// The constraint that the configuration of a game stands for.
pub fn get_version_req(cfg: &GameConfig) -> (r: Result<VersionConstraint, Error>)
    ensures
        match r {
            Ok(c) => effective_constraint(cfg.sdk) == Ok::<Seq<char>, ErrorView>(c@),
            Err(e) => effective_constraint(cfg.sdk) == Err::<Seq<char>, ErrorView>(e@),
        },
{
    if !cfg.sdk.versions.is_any() || cfg.sdk.version.as_str().unicode_len() == 0 {
        return Ok(cfg.sdk.versions.clone());
    }
    match VersionConstraint::exactly(cfg.sdk.version.as_str()) {
        Some(c) => Ok(c),
        None => {
            let mut detail = String::from_str("Semantic versioning error: ");
            detail.append(cfg.sdk.version.as_str());
            Err(Error::Launch(detail))
        },
    }
}

/// Chooses from `manifest` the build that the game runs on: the newest
/// build of the type it asks for that its constraint admits, in whatever
/// order the manifest lists the builds.
pub fn choose_sdk<'a>(manifest: &'a SDKList, cfg: &GameConfig) -> (r: Result<&'a SDKInfo, Error>)
    ensures
        match r {
            Ok(info) => chosen(manifest@, cfg.sdk) matches Ok(i) && effective_constraint(cfg.sdk)
                matches Ok(c) && is_best(manifest@[cfg.sdk.sdk_type@], c, i) && *info
                == manifest@[cfg.sdk.sdk_type@][i],
            Err(e) => chosen(manifest@, cfg.sdk) == Err::<int, ErrorView>(e@),
        },
        r matches Ok(info) ==> effective_constraint(cfg.sdk) matches Ok(c) && picked_in_any_order(
            manifest@[cfg.sdk.sdk_type@],
            c,
            *info,
        ),
{
    match get_version_req(cfg) {
        Ok(constraint) => manifest.resolve(cfg.sdk.sdk_type.as_str(), &constraint),
        Err(e) => Err(e),
    }
}

/// `name` under the directory `dir`.
pub open spec fn child(dir: Seq<char>, name: Seq<char>) -> Seq<char> {
    dir + "/"@ + name
}

/// Whether `c` parts the components of a path.
pub open spec fn is_separator(c: char) -> bool {
    c == '/' || c == '\\'
}

/// Whether a component `..` begins at place `i` of `path`.
pub open spec fn climbs_at(path: Seq<char>, i: int) -> bool {
    &&& 0 <= i && i + 2 <= path.len()
    &&& path[i] == '.' && path[i + 1] == '.'
    &&& i == 0 || is_separator(path[i - 1])
    &&& i + 2 == path.len() || is_separator(path[i + 2])
}

/// Whether a relative path stays inside the directory that it is put
/// under: none of its components is `..`.
pub open spec fn stays_inside(path: Seq<char>) -> bool {
    forall|i: int| !climbs_at(path, i)
}

/// Whether each of the paths stays inside the directory that it is put under.
pub open spec fn all_inside(paths: Seq<Seq<char>>) -> bool {
    forall|k: int| 0 <= k < paths.len() ==> stays_inside(#[trigger] paths[k])
}

/// The directory in which the versions of `game` are installed.
pub open spec fn game_dir(data_dir: Seq<char>, game: Seq<char>) -> Seq<char> {
    child(child(data_dir, "games"@), game)
}

/// The directory in which `version` of `game` is installed.
pub open spec fn version_dir(data_dir: Seq<char>, game: Seq<char>, version: Seq<char>) -> Seq<
    char,
> {
    child(child(game_dir(data_dir, game), "versions"@), version)
}

/// The jar of `version` of `game`.
pub open spec fn game_jar(data_dir: Seq<char>, game: Seq<char>, version: Seq<char>) -> Seq<char> {
    child(version_dir(data_dir, game, version), version + ".jar"@)
}

/// The classpath of a game: each declared entry under the data directory,
/// in the declared order, and the jar of the game last.
pub open spec fn classpath_of(
    entries: Seq<Seq<char>>,
    game: Seq<char>,
    version: Seq<char>,
    data_dir: Seq<char>,
) -> Seq<Seq<char>> {
    entries.map_values(|e: Seq<char>| child(data_dir, e)).push(game_jar(data_dir, game, version))
}

/// The classpath as the one argument that the runtime takes: its entries
/// with the separator of the host between them.
pub open spec fn joined_classpath(classpath: Seq<Seq<char>>, os: SDKOperatingSystem) -> Seq<char> {
    join(classpath, os.spec_path_separator())
}

/// The data directory of the launcher on a host, from what its
/// environment holds: `appdata` on Windows, `Library/Application Support`
/// under `home` on macOS, and on Linux `xdg_config_home` or else `.config`
/// under `home`. In it the launcher has a directory of its own.
pub open spec fn data_dir_of(
    os: SDKOperatingSystem,
    appdata: Option<Seq<char>>,
    home: Option<Seq<char>>,
    xdg_config_home: Option<Seq<char>>,
) -> Option<Seq<char>> {
    let base = match os {
        SDKOperatingSystem::Windows => appdata,
        SDKOperatingSystem::MacOS => match home {
            Some(h) => Some(under(h, "Library/Application Support"@)),
            None => None,
        },
        SDKOperatingSystem::Linux => match xdg_config_home {
            Some(x) => Some(x),
            None => match home {
                Some(h) => Some(under(h, ".config"@)),
                None => None,
            },
        },
    };
    match base {
        Some(b) => Some(under(b, "UltreonGameLauncher"@)),
        None => None,
    }
}

/// `name` under `dir`, where `dir` may end with separators. Under the
/// empty directory it is `name` itself, a path relative to wherever the
/// launcher runs.
pub open spec fn under(dir: Seq<char>, name: Seq<char>) -> Seq<char> {
    if dir.len() == 0 {
        name
    } else {
        child(trim_end(dir, '/'), name)
    }
}

/// Whether a relative path stays inside the directory that it is put
/// under: none of its components is `..`.
pub fn path_stays_inside(path: &str) -> (inside: bool)
    ensures
        inside == stays_inside(path@),
{
    let v = chars_of(path);
    let mut i: usize = 0;
    while i < v.len()
        invariant
            i <= v.len(),
            v@ == path@,
            forall|k: int| k < i ==> !climbs_at(path@, k),
        decreases v.len() - i,
    {
        if v[i] == '.' && i + 1 < v.len() && v[i + 1] == '.' {
            let starts = i == 0 || v[i - 1] == '/' || v[i - 1] == '\\';
            let ends = i + 2 == v.len() || v[i + 2] == '/' || v[i + 2] == '\\';
            if starts && ends {
                assert(climbs_at(path@, i as int));
                return false;
            }
        }
        i += 1;
    }
    true
}

/// Whether each of the paths stays inside the directory that it is put
/// under. Gives the first that does not.
pub fn first_outside(paths: &Vec<String>) -> (r: Option<usize>)
    ensures
        r is None <==> all_inside(texts(paths@)),
        r matches Some(k) ==> k < paths@.len() && !stays_inside(paths@[k as int]@) && all_inside(
            texts(paths@).take(k as int),
        ),
{
    let mut k: usize = 0;
    while k < paths.len()
        invariant
            k <= paths.len(),
            all_inside(texts(paths@).take(k as int)),
        decreases paths.len() - k,
    {
        if !path_stays_inside(paths[k].as_str()) {
            assert(texts(paths@)[k as int] == paths@[k as int]@);
            return Some(k);
        }
        proof {
            let now = texts(paths@).take(k + 1);
            assert forall|j: int| 0 <= j < now.len() implies stays_inside(#[trigger] now[j]) by {
                if j < k {
                    assert(texts(paths@).take(k as int)[j] == now[j]);
                }
            }
        }
        k += 1;
    }
    assert(texts(paths@).take(k as int) =~= texts(paths@));
    None
}

/// `name` under the directory `dir`.
pub fn child_path(dir: &str, name: &str) -> (path: String)
    ensures
        path@ == child(dir@, name@),
{
    let mut path = String::from_str(dir);
    path.append("/");
    path.append(name);
    path
}

/// `name` under `dir`, where `dir` may end with separators.
pub fn path_under(dir: &str, name: &str) -> (path: String)
    ensures
        path@ == under(dir@, name@),
{
    let v = chars_of(dir);
    if v.len() == 0 {
        return String::from_str(name);
    }
    let n = trimmed_len(&v, '/');
    proof {
        crate::text::lemma_trim_end(dir@, '/');
    }
    child_path(dir.substring_char(0, n), name)
}

/// The data directory of the launcher on a host, from what its
/// environment holds. None where the environment lacks what the host's
/// convention builds on.
pub fn get_data_dir(
    os: SDKOperatingSystem,
    appdata: Option<&str>,
    home: Option<&str>,
    xdg_config_home: Option<&str>,
) -> (dir: Option<String>)
    ensures
        crate::sdk::opt_text(dir) == data_dir_of(
            os,
            opt_view(appdata),
            opt_view(home),
            opt_view(xdg_config_home),
        ),
{
    let base: Option<String> = match os {
        SDKOperatingSystem::Windows => match appdata {
            Some(a) => Some(String::from_str(a)),
            None => None,
        },
        SDKOperatingSystem::MacOS => match home {
            Some(h) => Some(path_under(h, "Library/Application Support")),
            None => None,
        },
        SDKOperatingSystem::Linux => match xdg_config_home {
            Some(x) => Some(String::from_str(x)),
            None => match home {
                Some(h) => Some(path_under(h, ".config")),
                None => None,
            },
        },
    };
    match base {
        Some(b) => Some(path_under(b.as_str(), "UltreonGameLauncher")),
        None => None,
    }
}

/// The view of an optional text.
pub open spec fn opt_view(s: Option<&str>) -> Option<Seq<char>> {
    match s {
        Some(t) => Some(t@),
        None => None,
    }
}

/// The directory in which the versions of `game` are installed.
pub fn game_dir_path(data_dir: &str, game: &str) -> (path: String)
    ensures
        path@ == game_dir(data_dir@, game@),
{
    let games = child_path(data_dir, "games");
    child_path(games.as_str(), game)
}

/// The directory in which `version` of `game` is installed.
pub fn version_dir_path(data_dir: &str, game: &str, version: &str) -> (path: String)
    ensures
        path@ == version_dir(data_dir@, game@, version@),
{
    let game_dir = game_dir_path(data_dir, game);
    let versions = child_path(game_dir.as_str(), "versions");
    child_path(versions.as_str(), version)
}

/// The jar of `version` of `game`.
pub fn game_jar_path(data_dir: &str, game: &str, version: &str) -> (path: String)
    ensures
        path@ == game_jar(data_dir@, game@, version@),
{
    let dir = version_dir_path(data_dir, game, version);
    let mut jar = String::from_str(version);
    jar.append(".jar");
    child_path(dir.as_str(), jar.as_str())
}

/// The classpath of a game: each declared entry under the data directory,
/// in the declared order, and the jar of the game last.
pub fn get_classpath(cfg: &GameConfig, meta: GameMetadata, data_dir: &String) -> (cp: Vec<String>)
    ensures
        texts(cp@) == classpath_of(texts(cfg.classpath@), cfg.game@, meta.version@, data_dir@),
        cp@.len() == cfg.classpath@.len() + 1,
        cp@.last()@ == game_jar(data_dir@, cfg.game@, meta.version@),
{
    let mut cp: Vec<String> = Vec::new();
    let mut i: usize = 0;
    while i < cfg.classpath.len()
        invariant
            i <= cfg.classpath.len(),
            cp@.len() == i,
            forall|k: int| 0 <= k < i ==> (#[trigger] cp@[k])@ == child(
                data_dir@,
                cfg.classpath@[k]@,
            ),
        decreases cfg.classpath.len() - i,
    {
        cp.push(child_path(data_dir.as_str(), cfg.classpath[i].as_str()));
        i += 1;
    }
    cp.push(game_jar_path(data_dir.as_str(), cfg.game.as_str(), meta.version.as_str()));
    assert(texts(cp@) =~= classpath_of(
        texts(cfg.classpath@),
        cfg.game@,
        meta.version@,
        data_dir@,
    ));
    cp
}

/// The classpath as the one argument that the runtime takes.
pub fn join_classpath(classpath: &Vec<String>, os: SDKOperatingSystem) -> (joined: String)
    ensures
        joined@ == joined_classpath(texts(classpath@), os),
{
    join_texts(classpath, os.path_separator())
}

/// In the classpath of a game the declared entries keep their order and
/// the jar of the game comes after all of them.
pub proof fn lemma_classpath_order(
    entries: Seq<Seq<char>>,
    game: Seq<char>,
    version: Seq<char>,
    data_dir: Seq<char>,
)
    ensures
        classpath_of(entries, game, version, data_dir).len() == entries.len() + 1,
        classpath_of(entries, game, version, data_dir).last() == game_jar(data_dir, game, version),
        forall|k: int|
            0 <= k < entries.len() ==> #[trigger] classpath_of(entries, game, version, data_dir)[k]
                == child(data_dir, entries[k]),
{
}

} // verus!
