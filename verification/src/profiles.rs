//! The profiles that the launcher knows, and the import of a game package.
//!
//! A profile is one installed version of a game under a name that the user
//! gave it. A package is a zip archive that holds the jar of the game, its
//! configuration, its metadata and the files of its classpath.

use vstd::prelude::*;
use crate::archive::{
    entry_named, is_named, read_zip_entry, zip_contents, zip_entry, zip_entry_name, zip_len,
    zip_names, ArchiveEntry, EntryView,
};
use crate::error::Error;
use crate::game::{GameConfig, GameMetadata};
use crate::text::{text_eq, texts};
use crate::util::{
    all_inside, child, child_path, first_outside, path_stays_inside, stays_inside, version_dir,
    version_dir_path,
};

verus! {

/// One installed version of a game, under the name that the user gave it.
#[derive(Debug)]
pub struct Profile {
    pub game: String,
    pub name: String,
    pub version: String,
}

/// A [`Profile`] with its texts as sequences of characters.
pub struct ProfileView {
    pub game: Seq<char>,
    pub name: Seq<char>,
    pub version: Seq<char>,
}

impl View for Profile {
    type V = ProfileView;

    open spec fn view(&self) -> ProfileView {
        ProfileView { game: self.game@, name: self.name@, version: self.version@ }
    }
}

impl Profile {
    /// A copy of the profile.
    pub fn clone(&self) -> (copy: Profile)
        ensures
            copy@ == self@,
    {
        Profile {
            game: self.game.clone(),
            name: self.name.clone(),
            version: self.version.clone(),
        }
    }

    /// The profile that stands for an import that the user gave up.
    pub fn none_picked() -> (p: Profile)
        ensures
            p@ == (ProfileView { game: "error"@, name: "ERROR"@, version: "error"@ }),
    {
        Profile {
            game: String::from_str("error"),
            name: String::from_str("ERROR"),
            version: String::from_str("error"),
        }
    }
}

/// The views of a list of profiles, in order.
pub open spec fn profile_views(list: Seq<Profile>) -> Seq<ProfileView> {
    list.map_values(|p: Profile| p@)
}

/// A copy of a list of profiles.
pub fn copy_profiles(list: &Vec<Profile>) -> (copy: Vec<Profile>)
    ensures
        profile_views(copy@) == profile_views(list@),
{
    let mut copy: Vec<Profile> = Vec::new();
    let mut i: usize = 0;
    while i < list.len()
        invariant
            i <= list.len(),
            copy@.len() == i,
            forall|k: int| 0 <= k < i ==> (#[trigger] copy@[k])@ == list@[k]@,
        decreases list.len() - i,
    {
        copy.push(list[i].clone());
        i += 1;
    }
    assert(profile_views(copy@) =~= profile_views(list@));
    copy
}

/// The profiles that the launcher knows, in the order in which they
/// were added. The same profile may stand in the list twice.
#[derive(Debug)]
pub struct Profiles(pub Vec<Profile>);

impl View for Profiles {
    type V = Seq<ProfileView>;

    open spec fn view(&self) -> Seq<ProfileView> {
        profile_views(self.0@)
    }
}

impl Profiles {
    /// No profiles.
    pub fn new() -> (p: Profiles)
        ensures
            p@ == Seq::<ProfileView>::empty(),
    {
        let p = Profiles(Vec::new());
        assert(p@ =~= Seq::<ProfileView>::empty());
        p
    }

    /// The profiles that are known, where any are: then the stored list
    /// need not be read.
    pub fn known(&self) -> (r: Option<Vec<Profile>>)
        ensures
            r is Some <==> self@.len() > 0,
            r matches Some(list) ==> profile_views(list@) == self@,
    {
        if self.0.len() > 0 {
            Some(copy_profiles(&self.0))
        } else {
            None
        }
    }

    /// Gives the list of profiles, for which the stored list is taken
    /// where none is known yet.
    ///
    /// `stored` is what the file of profiles holds, if there is such a
    /// file. Profiles that are known already stay as they are, and the
    /// stored list is ignored.
    pub fn load_profiles(&mut self, stored: Option<Vec<Profile>>) -> (list: Vec<Profile>)
        ensures
            final(self)@ == (if old(self)@.len() > 0 {
                old(self)@
            } else {
                match stored {
                    Some(s) => profile_views(s@),
                    None => Seq::<ProfileView>::empty(),
                }
            }),
            profile_views(list@) == final(self)@,
    {
        if self.0.len() == 0 {
            match stored {
                Some(s) => {
                    self.0 = s;
                },
                None => {
                    assert(self@ =~= Seq::<ProfileView>::empty());
                },
            }
        }
        copy_profiles(&self.0)
    }

    /// Adds a profile at the end, and gives the whole list as it is to be stored.
    pub fn add(&mut self, profile: Profile) -> (list: Vec<Profile>)
        ensures
            final(self)@ == old(self)@.push(profile@),
            profile_views(list@) == final(self)@,
    {
        self.0.push(profile);
        assert(self@ =~= old(self)@.push(profile@));
        copy_profiles(&self.0)
    }
}

/// A file that an import writes.
#[derive(Debug)]
pub struct FileWrite {
    pub path: String,
    pub data: Vec<u8>,
}

/// A [`FileWrite`] with its path and bytes as sequences.
pub struct FileWriteView {
    pub path: Seq<char>,
    pub data: Seq<u8>,
}

impl View for FileWrite {
    type V = FileWriteView;

    open spec fn view(&self) -> FileWriteView {
        FileWriteView { path: self.path@, data: self.data@ }
    }
}

/// The views of a list of files to write, in order.
pub open spec fn write_views(list: Seq<FileWrite>) -> Seq<FileWriteView> {
    list.map_values(|w: FileWrite| w@)
}

/// What the import of a package comes to.
#[derive(Debug)]
pub struct Import {
    /// The profile that the package becomes.
    pub profile: Profile,
    /// The files that are written, in order.
    pub writes: Vec<FileWrite>,
}

/// The file that an entry becomes under `dir`.
pub open spec fn write_of(dir: Seq<char>, entry: EntryView) -> FileWriteView {
    FileWriteView { path: child(dir, entry.path), data: entry.data }
}

/// The file that an entry becomes under `dir` by the name under which it
/// was opened.
pub open spec fn named_write(dir: Seq<char>, name: Seq<char>, entry: EntryView) -> FileWriteView {
    FileWriteView { path: child(dir, name), data: entry.data }
}

/// The files that the first `k` entries of an archive become under
/// `dir`, in the order of the archive: each entry is opened, and those
/// that `names` holds are read and written. None where one of the entries
/// cannot be opened, and where one that `names` holds cannot be read. An
/// entry that `names` does not hold need not be readable.
pub open spec fn member_writes(
    opened: Seq<Option<Seq<char>>>,
    contents: Seq<Option<EntryView>>,
    names: Seq<Seq<char>>,
    dir: Seq<char>,
    k: int,
) -> Option<Seq<FileWriteView>>
    decreases k,
{
    if k <= 0 {
        Some(Seq::empty())
    } else {
        match (member_writes(opened, contents, names, dir, k - 1), opened[k - 1]) {
            (Some(before), Some(name)) => if names.contains(name) {
                match contents[k - 1] {
                    Some(entry) => Some(before.push(named_write(dir, name, entry))),
                    None => None,
                }
            } else {
                Some(before)
            },
            _ => None,
        }
    }
}

/// The files that the entries named in `names` become under `dir`.
pub open spec fn package_writes(
    opened: Seq<Option<Seq<char>>>,
    contents: Seq<Option<EntryView>>,
    names: Seq<Seq<char>>,
    dir: Seq<char>,
) -> Option<Seq<FileWriteView>> {
    member_writes(opened, contents, names, dir, opened.len() as int)
}

/// Once the unpacking of a package has failed at an entry, it has
/// failed for the whole of the archive.
pub proof fn lemma_member_writes_fail_onward(
    opened: Seq<Option<Seq<char>>>,
    contents: Seq<Option<EntryView>>,
    names: Seq<Seq<char>>,
    dir: Seq<char>,
    k: int,
    later: int,
)
    requires
        k <= later,
        member_writes(opened, contents, names, dir, k) is None,
    ensures
        member_writes(opened, contents, names, dir, later) is None,
    decreases later - k,
{
    if k < later {
        lemma_member_writes_fail_onward(opened, contents, names, dir, k, later - 1);
    }
}

/// The files of a package all stay inside the directory, where each of
/// the names does: every one of them is written under one of the names.
pub proof fn lemma_members_stay_inside(
    opened: Seq<Option<Seq<char>>>,
    contents: Seq<Option<EntryView>>,
    names: Seq<Seq<char>>,
    dir: Seq<char>,
    k: int,
    i: int,
)
    requires
        all_inside(names),
        member_writes(opened, contents, names, dir, k) matches Some(writes) && 0 <= i
            < writes.len(),
    ensures
        exists|path: Seq<char>|
            stays_inside(path) && names.contains(path) && #[trigger] child(dir, path)
                == member_writes(opened, contents, names, dir, k)->0[i].path,
    decreases k,
{
    if k > 0 {
        let before = member_writes(opened, contents, names, dir, k - 1)->0;
        let name = opened[k - 1]->0;
        if names.contains(name) && i == before.len() {
            let at = choose|at: int| 0 <= at < names.len() && names[at] == name;
            assert(stays_inside(names[at]));
            assert(child(dir, name) == member_writes(opened, contents, names, dir, k)->0[i].path);
        } else {
            lemma_members_stay_inside(opened, contents, names, dir, k - 1, i);
        }
    }
}

/// The file that the entry named `name` becomes under `dir`. None where
/// the name leaves the directory, and where no entry of that name could
/// be read.
pub open spec fn single_write(contents: Seq<Option<EntryView>>, dir: Seq<char>, name: Seq<char>) -> Option<
    FileWriteView,
> {
    if stays_inside(name) {
        match entry_named(contents, name) {
            Some(entry) => Some(write_of(dir, entry)),
            None => None,
        }
    } else {
        None
    }
}

/// Whether every name under which the import of a package writes stays
/// inside the data directory: the game, the version, the jar, and each
/// entry of the classpath.
pub open spec fn import_stays_inside(
    classpath: Seq<Seq<char>>,
    game: Seq<char>,
    version: Seq<char>,
) -> bool {
    &&& stays_inside(game)
    &&& stays_inside(version)
    &&& stays_inside(version + ".jar"@)
    &&& all_inside(classpath)
}

/// The files that the import of a package writes: its jar, its
/// configuration and its metadata into the directory of the version, then
/// the files of the classpath under the data directory. None where a name
/// leaves the data directory, where the package lacks one of the three,
/// where one of its entries cannot be opened, and where one that the
/// classpath names cannot be read.
pub open spec fn import_writes(
    opened: Seq<Option<Seq<char>>>,
    contents: Seq<Option<EntryView>>,
    classpath: Seq<Seq<char>>,
    game: Seq<char>,
    version: Seq<char>,
    data_dir: Seq<char>,
) -> Option<Seq<FileWriteView>> {
    let dir = version_dir(data_dir, game, version);
    if import_stays_inside(classpath, game, version) {
        match (
            single_write(contents, dir, version + ".jar"@),
            single_write(contents, dir, "config.json"@),
            single_write(contents, dir, "metadata.json"@),
            package_writes(opened, contents, classpath, data_dir),
        ) {
            (Some(jar), Some(config), Some(metadata), Some(members)) => Some(
                seq![jar, config, metadata] + members,
            ),
            _ => None,
        }
    } else {
        None
    }
}

/// Whether one of `list` is the text `name`.
pub fn lists_text(list: &Vec<String>, name: &str) -> (found: bool)
    ensures
        found == texts(list@).contains(name@),
{
    let mut i: usize = 0;
    while i < list.len()
        invariant
            i <= list.len(),
            forall|k: int| 0 <= k < i ==> texts(list@)[k] != name@,
        decreases list.len() - i,
    {
        if text_eq(list[i].as_str(), name) {
            assert(texts(list@)[i as int] == name@);
            return true;
        }
        i += 1;
    }
    false
}

/// The file that an entry becomes under `dir`.
fn write_entry(dir: &str, entry: ArchiveEntry) -> (w: FileWrite)
    ensures
        w@ == write_of(dir@, entry@),
{
    FileWrite { path: child_path(dir, entry.path.as_str()), data: entry.data }
}

/// Plans the unpacking of the one entry named `file_to_extract` into
/// the directory `extract_to`.
///
/// Fails exactly where the name leaves the directory, and where the
/// archive has no entry of that name that can be read.
pub fn extract_single_file(
    archive: &mut zip::ZipArchive<std::io::Cursor<Vec<u8>>>,
    extract_to: &str,
    file_to_extract: &str,
) -> (r: Result<FileWrite, String>)
    ensures
        zip_contents(*final(archive)) == zip_contents(*old(archive)),
        zip_names(*final(archive)) == zip_names(*old(archive)),
        match r {
            Ok(w) => single_write(zip_contents(*old(archive)), extract_to@, file_to_extract@)
                == Some(w@),
            Err(_) => single_write(zip_contents(*old(archive)), extract_to@, file_to_extract@)
                is None,
        },
        r matches Ok(w) ==> w@.path == child(extract_to@, file_to_extract@) && stays_inside(
            file_to_extract@,
        ),
{
    if !path_stays_inside(file_to_extract) {
        let mut words = String::from_str("Entry leaves the output directory: ");
        words.append(file_to_extract);
        return Err(words);
    }
    match read_zip_entry(archive, file_to_extract) {
        Ok(e) => {
            proof {
                let contents = zip_contents(*old(archive));
                let at = choose|i: int| is_named(contents, file_to_extract@, i);
                assert(is_named(contents, file_to_extract@, at));
            }
            Ok(write_entry(extract_to, e))
        },
        Err(words) => Err(words),
    }
}

/// Plans the unpacking of the entries that `files_to_extract` names
/// into the directory `extract_to`, in the order of the archive. Each
/// entry is opened; those that are not named are skipped without being
/// read.
///
/// Fails exactly where one of the names leaves the directory, where an
/// entry cannot be opened, and where a named entry cannot be read. Every
/// file that is planned has one of the names, and so stays inside the
/// directory.
pub fn extract_package_zip(
    archive: &mut zip::ZipArchive<std::io::Cursor<Vec<u8>>>,
    extract_to: &str,
    files_to_extract: &Vec<String>,
) -> (r: Result<Vec<FileWrite>, String>)
    ensures
        zip_contents(*final(archive)) == zip_contents(*old(archive)),
        zip_names(*final(archive)) == zip_names(*old(archive)),
        r is Ok <==> all_inside(texts(files_to_extract@)) && package_writes(
            zip_names(*old(archive)),
            zip_contents(*old(archive)),
            texts(files_to_extract@),
            extract_to@,
        ) is Some,
        r matches Ok(writes) ==> Some(write_views(writes@)) == package_writes(
            zip_names(*old(archive)),
            zip_contents(*old(archive)),
            texts(files_to_extract@),
            extract_to@,
        ),
{
    if let Some(k) = first_outside(files_to_extract) {
        let mut words = String::from_str("Entry leaves the output directory: ");
        words.append(files_to_extract[k].as_str());
        return Err(words);
    }
    let ghost contents = zip_contents(*archive);
    let ghost opened = zip_names(*archive);
    let ghost names = texts(files_to_extract@);
    let len = zip_len(archive);
    let mut writes: Vec<FileWrite> = Vec::new();
    let mut i: usize = 0;
    assert(write_views(writes@) =~= Seq::<FileWriteView>::empty());
    while i < len
        invariant
            i <= len,
            len == opened.len(),
            len == contents.len(),
            zip_contents(*archive) == contents,
            zip_names(*archive) == opened,
            zip_contents(*old(archive)) == contents,
            zip_names(*old(archive)) == opened,
            names == texts(files_to_extract@),
            member_writes(opened, contents, names, extract_to@, i as int) == Some(
                write_views(writes@),
            ),
        decreases len - i,
    {
        let name = match zip_entry_name(archive, i) {
            Ok(name) => name,
            Err(words) => {
                proof {
                    assert(member_writes(opened, contents, names, extract_to@, i + 1) is None);
                    lemma_member_writes_fail_onward(
                        opened,
                        contents,
                        names,
                        extract_to@,
                        i + 1,
                        len as int,
                    );
                }
                return Err(words);
            },
        };
        let ghost before = write_views(writes@);
        if lists_text(files_to_extract, name.as_str()) {
            match zip_entry(archive, i) {
                Ok(entry) => {
                    writes.push(write_entry(extract_to, entry));
                    assert(write_views(writes@) =~= before.push(
                        named_write(extract_to@, name@, contents[i as int]->0),
                    ));
                },
                Err(words) => {
                    proof {
                        assert(member_writes(opened, contents, names, extract_to@, i + 1) is None);
                        lemma_member_writes_fail_onward(
                            opened,
                            contents,
                            names,
                            extract_to@,
                            i + 1,
                            len as int,
                        );
                    }
                    return Err(words);
                },
            }
        }
        i += 1;
    }
    Ok(writes)
}

/// Plans the import of a game package under the name `name`.
///
/// `cfg` and `meta` are what the `config.json` and the `metadata.json`
/// of the package hold. The package is unpacked into the directory of the
/// version that they name, and becomes a profile of that game and version.
///
/// A package is refused as not allowed where the game, the version, the
/// jar or an entry of the classpath names a path that leaves the data
/// directory. It fails as an archive where it lacks its jar, its
/// configuration or its metadata, where one of its entries cannot be
/// opened, and where one that the classpath names cannot be read. An
/// entry that is opened and not named is not read, and may be damaged.
pub fn list_zip_contents(
    archive: &mut zip::ZipArchive<std::io::Cursor<Vec<u8>>>,
    name: &String,
    cfg: &GameConfig,
    meta: &GameMetadata,
    data_dir: &str,
) -> (r: Result<Import, Error>)
    ensures
        zip_contents(*final(archive)) == zip_contents(*old(archive)),
        zip_names(*final(archive)) == zip_names(*old(archive)),
        r is Ok <==> import_writes(
            zip_names(*old(archive)),
            zip_contents(*old(archive)),
            texts(cfg.classpath@),
            cfg.game@,
            meta.version@,
            data_dir@,
        ) is Some,
        r matches Ok(import) ==> import.profile@ == (ProfileView {
            game: cfg.game@,
            name: name@,
            version: meta.version@,
        }) && Some(write_views(import.writes@)) == import_writes(
            zip_names(*old(archive)),
            zip_contents(*old(archive)),
            texts(cfg.classpath@),
            cfg.game@,
            meta.version@,
            data_dir@,
        ),
        r matches Err(e) ==> if import_stays_inside(
            texts(cfg.classpath@),
            cfg.game@,
            meta.version@,
        ) {
            e is Zip
        } else {
            e is PathNotAllowed
        },
{
    let mut jar_name = meta.version.clone();
    jar_name.append(".jar");
    if !path_stays_inside(cfg.game.as_str()) {
        return Err(Error::PathNotAllowed(cfg.game.clone()));
    }
    if !path_stays_inside(meta.version.as_str()) {
        return Err(Error::PathNotAllowed(meta.version.clone()));
    }
    if !path_stays_inside(jar_name.as_str()) {
        return Err(Error::PathNotAllowed(jar_name));
    }
    if let Some(k) = first_outside(&cfg.classpath) {
        return Err(Error::PathNotAllowed(cfg.classpath[k].clone()));
    }
    let dir = version_dir_path(data_dir, cfg.game.as_str(), meta.version.as_str());
    let jar = match extract_single_file(archive, dir.as_str(), jar_name.as_str()) {
        Ok(w) => w,
        Err(words) => {
            return Err(Error::Zip(words));
        },
    };
    let config = match extract_single_file(archive, dir.as_str(), "config.json") {
        Ok(w) => w,
        Err(words) => {
            return Err(Error::Zip(words));
        },
    };
    let metadata = match extract_single_file(archive, dir.as_str(), "metadata.json") {
        Ok(w) => w,
        Err(words) => {
            return Err(Error::Zip(words));
        },
    };
    let mut members = match extract_package_zip(archive, data_dir, &cfg.classpath) {
        Ok(writes) => writes,
        Err(words) => {
            return Err(Error::Zip(words));
        },
    };
    let ghost member_views = write_views(members@);
    let mut writes: Vec<FileWrite> = Vec::new();
    writes.push(jar);
    writes.push(config);
    writes.push(metadata);
    let ghost first = write_views(writes@);
    assert(first =~= seq![jar@, config@, metadata@]);
    writes.append(&mut members);
    assert(write_views(writes@) =~= first + member_views);
    let profile = Profile {
        game: cfg.game.clone(),
        name: name.clone(),
        version: meta.version.clone(),
    };
    Ok(Import { profile, writes })
}

} // verus!
