//! Unpacking of a downloaded archive.
//!
//! The archive is read from bytes in memory, by the `zip` crate or by
//! `flate2` and `tar`. What is read becomes a list of steps: for each entry
//! the report on it, the directory to make sure of, and the directory to
//! create or the file to write. Whoever owns the disk carries the steps out
//! in order. A failure ends the list where it occurs; the steps before it
//! stand.

use std::io::{Error, Read};
use vstd::prelude::*;
use crate::net::{completed, completed_report, DownloadInfo, DownloadInfoView};
use crate::text::{
    chars_of, ends_with, find_last, has_suffix, last_index_of, lemma_starts_with_prefix, starts_with,
    trim_end, trimmed_len,
};
use crate::util::{child, child_path, path_stays_inside, stays_inside};

verus! {

/// `std::io::Cursor`, the reader over bytes in memory that a zip archive
/// is opened on. Nothing is known of what it holds.
#[verifier::external_type_specification]
#[verifier::external_body]
#[verifier::reject_recursive_types(T)]
pub struct ExCursor<T>(std::io::Cursor<T>);

/// `zip::ZipArchive`, an opened zip archive. What it holds is named by
/// [`zip_contents`].
#[verifier::external_type_specification]
#[verifier::external_body]
#[verifier::reject_recursive_types(R)]
pub struct ExZipArchive<R>(zip::ZipArchive<R>);

/// The formats of archive that the launcher unpacks.
#[derive(Debug, Clone, Copy, PartialEq, Eq, Structural)]
pub enum ArchiveKind {
    /// A tar archive compressed with gzip.
    TarGzip,
    /// A zip archive.
    Zip,
}

/// One entry of an archive.
#[derive(Debug)]
pub struct ArchiveEntry {
    /// The path of the entry inside the archive.
    pub path: String,
    /// Whether the entry is a directory.
    pub is_dir: bool,
    /// The permission bits of the entry, where the archive holds them.
    pub mode: Option<u32>,
    /// The bytes of the entry; none for a directory.
    pub data: Vec<u8>,
}

/// An [`ArchiveEntry`] with its path and bytes as sequences.
pub struct EntryView {
    pub path: Seq<char>,
    pub is_dir: bool,
    pub mode: Option<u32>,
    pub data: Seq<u8>,
}

impl View for ArchiveEntry {
    type V = EntryView;

    open spec fn view(&self) -> EntryView {
        EntryView { path: self.path@, is_dir: self.is_dir, mode: self.mode, data: self.data@ }
    }
}

/// What is done for one entry of an archive.
#[derive(Debug)]
pub struct ExtractStep {
    /// The report that is sent before anything is done.
    pub progress: DownloadInfo,
    /// The directory that is made sure of first.
    pub parent: String,
    /// The path that the entry is unpacked to.
    pub target: String,
    /// Whether a directory is created at the target; else a file is written.
    pub is_dir: bool,
    /// The permission bits that the file is given, where the archive holds them.
    pub mode: Option<u32>,
    /// The bytes that are written to the file.
    pub data: Vec<u8>,
}

/// An [`ExtractStep`] with its texts and bytes as sequences.
pub struct ExtractStepView {
    pub progress: DownloadInfoView,
    pub parent: Seq<char>,
    pub target: Seq<char>,
    pub is_dir: bool,
    pub mode: Option<u32>,
    pub data: Seq<u8>,
}

impl View for ExtractStep {
    type V = ExtractStepView;

    open spec fn view(&self) -> ExtractStepView {
        ExtractStepView {
            progress: self.progress@,
            parent: self.parent@,
            target: self.target@,
            is_dir: self.is_dir,
            mode: self.mode,
            data: self.data@,
        }
    }
}

/// The unpacking of one archive, as a list of things to do.
#[derive(Debug)]
pub struct Extraction {
    /// The report that is sent first.
    pub started: DownloadInfo,
    /// The directory that the archive is unpacked into, which is created first.
    pub output_dir: String,
    /// One step for each entry that could be read, in the order of the archive.
    pub steps: Vec<ExtractStep>,
    /// How the unpacking ends once the steps are done: with the report
    /// that is sent last, or with the failure that stopped it.
    pub outcome: Result<DownloadInfo, String>,
}

/// The format of the archive named `name`, which its ending tells.
pub open spec fn kind_of(name: Seq<char>) -> Option<ArchiveKind> {
    if ends_with(name, ".tar.gz"@) {
        Some(ArchiveKind::TarGzip)
    } else if ends_with(name, ".zip"@) {
        Some(ArchiveKind::Zip)
    } else {
        None
    }
}

/// The report that is sent before the archive named `name` is unpacked.
pub open spec fn started_report(name: Seq<char>) -> DownloadInfoView {
    DownloadInfoView {
        downloaded: 0,
        total: 0,
        percent: 100,
        downloading: true,
        status: "Extracting: "@ + name,
    }
}

/// The report on the entry at place `index`: it counts the entries done so far.
pub open spec fn entry_report(index: int, path: Seq<char>) -> DownloadInfoView {
    DownloadInfoView {
        downloaded: index as u64,
        total: index as u64,
        percent: 100,
        downloading: true,
        status: "Extracting: "@ + path,
    }
}

/// The directory that holds the entry at `path` once it is unpacked into
/// `output_dir`.
pub open spec fn entry_parent(output_dir: Seq<char>, path: Seq<char>) -> Seq<char> {
    let trimmed = trim_end(path, '/');
    let cut = last_index_of(trimmed, '/');
    if cut < 0 {
        output_dir
    } else {
        child(output_dir, trimmed.take(cut))
    }
}

/// What is done for `entry`, the one at place `index`, when the archive
/// is unpacked into `output_dir`: it goes to its own path under that
/// directory, with the bytes that it has and the permission bits of its
/// mode. A step is planned only for an entry whose path stays inside.
pub open spec fn step_of(output_dir: Seq<char>, index: int, entry: EntryView) -> ExtractStepView {
    ExtractStepView {
        progress: entry_report(index, entry.path),
        parent: entry_parent(output_dir, entry.path),
        target: child(output_dir, entry.path),
        is_dir: entry.is_dir,
        mode: kept_mode(entry.mode),
        data: entry.data,
    }
}

/// The permission bits that a file is given: of the mode of its entry
/// the bits that tell who may read, write and run it, and no others.
pub open spec fn kept_mode(mode: Option<u32>) -> Option<u32> {
    match mode {
        Some(bits) => Some(bits & 0o777),
        None => None,
    }
}

/// An entry without its mode. The entries of a zip archive are unpacked
/// so: permission bits are kept for tar archives only.
pub open spec fn without_mode(entry: Option<EntryView>) -> Option<EntryView> {
    match entry {
        Some(e) => Some(EntryView { path: e.path, is_dir: e.is_dir, mode: None, data: e.data }),
        None => None,
    }
}

/// A listing without the modes of its entries.
pub open spec fn without_modes(listing: Seq<Option<EntryView>>) -> Seq<Option<EntryView>> {
    listing.map_values(|e: Option<EntryView>| without_mode(e))
}

/// Whether an entry is unpacked: it could be read, and its path stays
/// inside the output directory.
pub open spec fn unpackable(entry: Option<EntryView>) -> bool {
    entry is Some && stays_inside(entry->0.path)
}

/// The number of entries at the start of a listing that are unpacked:
/// those before the first that could not be read or whose path leaves the
/// output directory.
pub open spec fn accepted(listing: Seq<Option<EntryView>>) -> nat
    decreases listing.len(),
{
    if listing.len() == 0 || !unpackable(listing[0]) {
        0
    } else {
        1 + accepted(listing.drop_first())
    }
}

/// The words of the failure for an entry whose path leaves the output directory.
pub open spec fn leaves_output_dir(path: Seq<char>) -> Seq<char> {
    "Entry leaves the output directory: "@ + path
}

/// The words with which the unpacking fails at `entry`: for one that
/// could not be read, `complaint` and the words of that failure; for one
/// that could, that its path leaves the output directory.
pub open spec fn failure_words(entry: Result<ArchiveEntry, String>, complaint: Seq<char>) -> Seq<
    char,
> {
    match entry {
        Ok(e) => leaves_output_dir(e.path@),
        Err(words) => complaint + words@,
    }
}

/// What was read of each entry, without the words of the failures.
pub open spec fn listing_of(entries: Seq<Result<ArchiveEntry, String>>) -> Seq<Option<EntryView>> {
    entries.map_values(
        |r: Result<ArchiveEntry, String>|
            match r {
                Ok(e) => Some(e@),
                Err(_) => None,
            },
    )
}

/// Whether `x` unpacks the archive named `name` with the listing
/// `listing` into `output_dir`: one step for each entry before the first
/// that could not be read or that leaves the output directory, and
/// success exactly where there is no such entry.
pub open spec fn unpacks(
    x: Extraction,
    name: Seq<char>,
    output_dir: Seq<char>,
    listing: Seq<Option<EntryView>>,
) -> bool {
    &&& x.started@ == started_report(name)
    &&& x.output_dir@ == output_dir
    &&& x.steps@.len() == accepted(listing)
    &&& forall|i: int|
        0 <= i < x.steps@.len() ==> (#[trigger] x.steps@[i])@ == step_of(
            output_dir,
            i,
            listing[i]->0,
        )
    &&& forall|i: int| 0 <= i < x.steps@.len() ==> unpackable(#[trigger] listing[i])
    &&& x.outcome is Ok <==> accepted(listing) == listing.len()
    &&& x.outcome matches Ok(report) ==> report@ == completed_report()
}

/// The accepted start of a listing is a part of it, holds only entries
/// that are unpacked, and ends at the first that is not.
pub proof fn lemma_accepted(listing: Seq<Option<EntryView>>)
    ensures
        accepted(listing) <= listing.len(),
        forall|i: int| 0 <= i < accepted(listing) ==> unpackable(#[trigger] listing[i]),
        accepted(listing) < listing.len() ==> !unpackable(listing[accepted(listing) as int]),
    decreases listing.len(),
{
    if listing.len() > 0 && unpackable(listing[0]) {
        let rest = listing.drop_first();
        lemma_accepted(rest);
        assert forall|i: int| 0 <= i < accepted(listing) implies unpackable(
            #[trigger] listing[i],
        ) by {
            if i > 0 {
                assert(rest[i - 1] == listing[i]);
            }
        }
        if accepted(listing) < listing.len() {
            assert(rest[accepted(rest) as int] == listing[accepted(listing) as int]);
        }
    }
}

/// A listing whose first `n` entries are unpacked, and whose next one is
/// not or does not exist, has `n` accepted entries.
pub proof fn lemma_accepted_is(listing: Seq<Option<EntryView>>, n: int)
    requires
        0 <= n <= listing.len(),
        forall|i: int| 0 <= i < n ==> unpackable(#[trigger] listing[i]),
        n < listing.len() ==> !unpackable(listing[n]),
    ensures
        accepted(listing) == n,
    decreases n,
{
    if n > 0 {
        let rest = listing.drop_first();
        assert(unpackable(listing[0]));
        assert forall|i: int| 0 <= i < n - 1 implies unpackable(#[trigger] rest[i]) by {
            assert(rest[i] == listing[i + 1]);
        }
        if n < listing.len() {
            assert(rest[n - 1] == listing[n]);
        }
        lemma_accepted_is(rest, n - 1);
    }
}

/// What `zip::ZipArchive::new` makes of the bytes: none where they are no
/// zip archive; else, for each entry in the order of the directory, what
/// reading it gives, or none where it cannot be read.
pub uninterp spec fn zip_listing(bytes: Seq<u8>) -> Option<Seq<Option<EntryView>>>;

/// What a zip archive holds: for each of its entries, in the order of its
/// directory, what reading it gives, or none where it cannot be read.
pub uninterp spec fn zip_contents(archive: zip::ZipArchive<std::io::Cursor<Vec<u8>>>) -> Seq<
    Option<EntryView>,
>;

/// What opening each entry of a zip archive gives, in the order of its
/// directory: the name of the entry, or none where it cannot be opened.
/// An entry can be opened and yet not be read to its end.
pub uninterp spec fn zip_names(archive: zip::ZipArchive<std::io::Cursor<Vec<u8>>>) -> Seq<
    Option<Seq<char>>,
>;

/// What `tar` lists of the bytes once `flate2` has decompressed them: for
/// each entry in the order of the archive, what reading it gives, or none
/// where it cannot be read.
pub uninterp spec fn tar_gz_listing(bytes: Seq<u8>) -> Seq<Option<EntryView>>;

/// `zip::ZipArchive::new` on bytes in memory: reads the directory of the
/// archive. The failure is given in the words of the crate.
#[verifier::external_body]
fn zip_open(bytes: Vec<u8>) -> (r: Result<zip::ZipArchive<std::io::Cursor<Vec<u8>>>, String>)
    ensures
        r is Ok <==> zip_listing(bytes@) is Some,
        r matches Ok(archive) ==> Some(zip_contents(archive)) == zip_listing(bytes@),
{
    zip::ZipArchive::new(std::io::Cursor::new(bytes)).map_err(|e| e.to_string())
}

/// `zip::ZipArchive::len`: the number of entries in the directory.
#[verifier::external_body]
pub(crate) fn zip_len(archive: &zip::ZipArchive<std::io::Cursor<Vec<u8>>>) -> (n: usize)
    ensures
        n == zip_contents(*archive).len(),
        n == zip_names(*archive).len(),
{
    archive.len()
}

/// `zip::ZipArchive::by_index`, then `name`, `is_dir` and `unix_mode` of
/// the entry and `read_to_end` on it. Reading leaves what the archive
/// holds, and what opening its entries gives, as it was. The failure is
/// given in the words of the crate.
#[verifier::external_body]
pub(crate) fn zip_entry(archive: &mut zip::ZipArchive<std::io::Cursor<Vec<u8>>>, i: usize) -> (r:
    Result<ArchiveEntry, String>)
    ensures
        zip_contents(*final(archive)) == zip_contents(*old(archive)),
        zip_names(*final(archive)) == zip_names(*old(archive)),
        r is Ok <==> i < zip_contents(*old(archive)).len() && zip_contents(
            *old(archive),
        )[i as int] is Some,
        r matches Ok(e) ==> Some(e@) == zip_contents(*old(archive))[i as int],
{
    let mut file = archive.by_index(i).map_err(|e| e.to_string())?;
    let mut data = Vec::new();
    file.read_to_end(&mut data).map_err(|e| e.to_string())?;
    let (path, is_dir, mode) = (file.name().to_string(), file.is_dir(), file.unix_mode());
    Ok(ArchiveEntry { path, is_dir, mode, data })
}

/// `zip::ZipArchive::by_index`, then `name` of the entry: opens the
/// entry and gives its name without reading it. An entry that can be read
/// can be opened, and has the name that reading gives. Opening leaves the
/// archive as it was. The failure is given in the words of the crate.
#[verifier::external_body]
pub(crate) fn zip_entry_name(
    archive: &mut zip::ZipArchive<std::io::Cursor<Vec<u8>>>,
    i: usize,
) -> (r: Result<String, String>)
    ensures
        zip_contents(*final(archive)) == zip_contents(*old(archive)),
        zip_names(*final(archive)) == zip_names(*old(archive)),
        r is Ok <==> i < zip_names(*old(archive)).len() && zip_names(*old(archive))[i as int]
            is Some,
        r matches Ok(name) ==> Some(name@) == zip_names(*old(archive))[i as int],
        i < zip_contents(*old(archive)).len() && zip_contents(*old(archive))[i as int] is Some
            ==> r is Ok && r->Ok_0@ == zip_contents(*old(archive))[i as int]->0.path,
{
    Ok(archive.by_index(i).map_err(|e| e.to_string())?.name().to_string())
}

/// `zip::ZipArchive::index_for_name`: the place of the entry with that
/// name. The archive keeps its entries by name, so no other entry has it.
#[verifier::external_body]
fn zip_index_of(archive: &zip::ZipArchive<std::io::Cursor<Vec<u8>>>, name: &str) -> (r: Option<
    usize,
>)
    ensures
        r matches Some(i) ==> i < zip_contents(*archive).len(),
        forall|j: int|
            0 <= j < zip_contents(*archive).len() && !(r is Some && r->0 == j) && (
            #[trigger] zip_contents(*archive)[j]) is Some ==> zip_contents(*archive)[j]->0.path
                != name@,
        r matches Some(i) ==> zip_contents(*archive)[i as int] is Some ==> zip_contents(
            *archive,
        )[i as int]->0.path == name@,
{
    archive.index_for_name(name)
}

/// `tar::Archive::entries` over `flate2::read::GzDecoder`, on bytes in
/// memory: each entry that the iterator yields, with its `path_bytes` as
/// text (bytes that are no UTF-8 replaced, alike on every host), whether
/// its `entry_type` is a directory, its `mode` and the bytes that
/// `read_to_end` gives. A failure is given in the words of the crates, and
/// stands in the place of the entry that met it; a failure of `entries`
/// itself is the one item of the listing.
#[verifier::external_body]
fn tar_gz_entries(bytes: &Vec<u8>) -> (r: Vec<Result<ArchiveEntry, String>>)
    ensures
        listing_of(r@) == tar_gz_listing(bytes@),
{
    let mut archive = tar::Archive::new(flate2::read::GzDecoder::new(bytes.as_slice()));
    let entries = match archive.entries() {
        Ok(entries) => entries,
        Err(e) => return vec![Err(e.to_string())],
    };
    let read = entries.map(|entry| {
        let mut entry = entry?;
        let path = String::from_utf8_lossy(&entry.path_bytes()).into_owned();
        let mut data = Vec::new();
        entry.read_to_end(&mut data)?;
        let header = entry.header();
        Ok(ArchiveEntry { path, is_dir: header.entry_type().is_dir(), mode: header.mode().ok(), data })
    });
    read.map(|r: Result<ArchiveEntry, Error>| r.map_err(|e| e.to_string())).collect()
}

/// The format of the archive named `name`, which its ending tells.
pub fn archive_kind(name: &str) -> (kind: Option<ArchiveKind>)
    ensures
        kind == kind_of(name@),
{
    if has_suffix(name, ".tar.gz") {
        Some(ArchiveKind::TarGzip)
    } else if has_suffix(name, ".zip") {
        Some(ArchiveKind::Zip)
    } else {
        None
    }
}

/// The report that is sent before the archive named `name` is unpacked.
pub fn started(name: &str) -> (info: DownloadInfo)
    ensures
        info@ == started_report(name@),
{
    let mut status = String::from_str("Extracting: ");
    status.append(name);
    DownloadInfo { downloaded: 0, total: 0, percent: 100, downloading: true, status }
}

/// The directory that holds the entry at `path` once it is unpacked into
/// `output_dir`.
pub fn parent_of_entry(output_dir: &str, path: &str) -> (parent: String)
    ensures
        parent@ == entry_parent(output_dir@, path@),
{
    let v = chars_of(path);
    let n = trimmed_len(&v, '/');
    proof {
        crate::text::lemma_trim_end(path@, '/');
    }
    let trimmed = path.substring_char(0, n);
    let t = chars_of(trimmed);
    proof {
        crate::text::lemma_last_index_of(trimmed@, '/');
    }
    match find_last(&t, '/') {
        None => String::from_str(output_dir),
        Some(cut) => child_path(output_dir, trimmed.substring_char(0, cut)),
    }
}

/// What is done for `entry`, the one at place `index`, when the archive
/// is unpacked into `output_dir`.
pub fn plan_step(output_dir: &str, index: usize, entry: ArchiveEntry) -> (step: ExtractStep)
    ensures
        step@ == step_of(output_dir@, index as int, entry@),
{
    let mut status = String::from_str("Extracting: ");
    status.append(entry.path.as_str());
    let progress = DownloadInfo {
        downloaded: index as u64,
        total: index as u64,
        percent: 100,
        downloading: true,
        status,
    };
    let parent = parent_of_entry(output_dir, entry.path.as_str());
    let target = child_path(output_dir, entry.path.as_str());
    let mode: Option<u32> = match entry.mode {
        Some(bits) => Some(bits & 0o777),
        None => None,
    };
    ExtractStep { progress, parent, target, is_dir: entry.is_dir, mode, data: entry.data }
}

/// The list in the opposite order. A list is taken apart from its end, so
/// this is what lets each of its items be moved out in turn from the front.
pub fn reversed<T>(list: Vec<T>) -> (r: Vec<T>)
    ensures
        r@.len() == list@.len(),
        forall|k: int| 0 <= k < r@.len() ==> r@[k] == list@[list@.len() - 1 - k],
{
    let ghost all = list@;
    let mut list = list;
    let mut r: Vec<T> = Vec::new();
    while list.len() > 0
        invariant
            list@.len() + r@.len() == all.len(),
            forall|k: int| 0 <= k < list@.len() ==> list@[k] == all[k],
            forall|k: int| 0 <= k < r@.len() ==> r@[k] == all[all.len() - 1 - k],
        decreases list@.len(),
    {
        let last = list.pop().unwrap();
        r.push(last);
    }
    r
}

/// Plans the unpacking of the archive named `name` into `output_dir`
/// from what was read of its entries.
///
/// The steps follow the entries in order and stop before the first that
/// could not be read or whose path leaves the output directory, so that
/// every step stays inside it. The unpacking then fails: for an entry
/// that could not be read with `complaint` followed by the words of that
/// failure, for one that leaves the output directory with words that name
/// its path. Where there is no such entry it ends with the report of
/// completion.
pub fn plan_extraction(
    name: &str,
    output_dir: &str,
    entries: Vec<Result<ArchiveEntry, String>>,
    complaint: &str,
) -> (x: Extraction)
    ensures
        unpacks(x, name@, output_dir@, listing_of(entries@)),
        forall|i: int|
            0 <= i < x.steps@.len() ==> stays_inside((#[trigger] listing_of(entries@)[i])->0.path),
        x.outcome matches Err(words) ==> words@ == failure_words(
            entries@[accepted(listing_of(entries@)) as int],
            complaint@,
        ),
{
    let ghost listing = listing_of(entries@);
    let ghost all = entries@;
    let mut steps: Vec<ExtractStep> = Vec::new();
    let mut failure: Option<String> = None;
    let count: usize = entries.len();
    let mut rest = reversed(entries);
    let mut i: usize = 0;
    while rest.len() > 0 && failure.is_none()
        invariant
            i + rest@.len() == count,
            count == all.len(),
            listing == listing_of(all),
            forall|k: int| 0 <= k < rest@.len() ==> rest@[k] == all[count - 1 - k],
            steps@.len() == (if failure is Some { i - 1 } else { i as int }),
            forall|k: int| 0 <= k < steps@.len() ==> unpackable(#[trigger] listing[k]),
            forall|k: int|
                0 <= k < steps@.len() ==> (#[trigger] steps@[k])@ == step_of(
                    output_dir@,
                    k,
                    listing[k]->0,
                ),
            failure matches Some(words) ==> i >= 1 && !unpackable(listing[i - 1]) && words@
                == failure_words(all[i - 1], complaint@),
        decreases rest@.len(),
    {
        let next = rest.pop().unwrap();
        assert(next == all[i as int]);
        match next {
            Ok(entry) => {
                if path_stays_inside(entry.path.as_str()) {
                    let step = plan_step(output_dir, i, entry);
                    steps.push(step);
                } else {
                    let mut line = String::from_str("Entry leaves the output directory: ");
                    line.append(entry.path.as_str());
                    failure = Some(line);
                }
            },
            Err(words) => {
                let mut line = String::from_str(complaint);
                line.append(words.as_str());
                failure = Some(line);
            },
        }
        i += 1;
    }
    proof {
        lemma_accepted_is(listing, steps@.len() as int);
    }
    let outcome = match failure {
        Some(words) => Err(words),
        None => Ok(completed()),
    };
    Extraction { started: started(name), output_dir: String::from_str(output_dir), steps, outcome }
}

/// Opens a zip archive that lies in memory.
///
/// Succeeds exactly on the bytes that are a zip archive. What the archive
/// then holds is what the bytes list.
pub fn open_zip(bytes: Vec<u8>) -> (r: Result<zip::ZipArchive<std::io::Cursor<Vec<u8>>>, String>)
    ensures
        r is Ok <==> zip_listing(bytes@) is Some,
        r matches Ok(archive) ==> Some(zip_contents(archive)) == zip_listing(bytes@),
        r matches Err(words) ==> starts_with(words@, "Failed to open SDK package: "@),
{
    match zip_open(bytes) {
        Ok(archive) => Ok(archive),
        Err(detail) => {
            let mut words = String::from_str("Failed to open SDK package: ");
            words.append(detail.as_str());
            proof {
                lemma_starts_with_prefix("Failed to open SDK package: "@, detail@);
            }
            Err(words)
        },
    }
}

/// Whether `words` tell why the unpacking of `listing` stops where it
/// does: at an entry that leaves the output directory they name its path,
/// at one that could not be read they begin with `complaint`.
pub open spec fn fails_as(
    words: Seq<char>,
    listing: Seq<Option<EntryView>>,
    complaint: Seq<char>,
) -> bool {
    match listing[accepted(listing) as int] {
        Some(entry) => words == leaves_output_dir(entry.path),
        None => starts_with(words, complaint),
    }
}

/// Plans the unpacking of the zip archive named `name` into
/// `output_dir`: one step for each entry, in the order of the directory
/// of the archive, up to the first that cannot be read or whose path
/// leaves the output directory. Every step stays inside that directory.
/// No step sets permission bits.
pub fn extract_zip(
    name: &str,
    output_dir: &String,
    archive: &mut zip::ZipArchive<std::io::Cursor<Vec<u8>>>,
) -> (x: Extraction)
    ensures
        zip_contents(*final(archive)) == zip_contents(*old(archive)),
        unpacks(x, name@, output_dir@, without_modes(zip_contents(*old(archive)))),
        forall|i: int| 0 <= i < x.steps@.len() ==> (#[trigger] x.steps@[i]).mode is None,
        forall|i: int|
            0 <= i < x.steps@.len() ==> stays_inside(
                (#[trigger] zip_contents(*old(archive))[i])->0.path,
            ),
        x.outcome matches Err(words) ==> fails_as(
            words@,
            without_modes(zip_contents(*old(archive))),
            "Failed to get zip file: "@,
        ),
{
    let ghost contents = zip_contents(*archive);
    let ghost bare = without_modes(contents);
    let len = zip_len(archive);
    let mut entries: Vec<Result<ArchiveEntry, String>> = Vec::new();
    let mut i: usize = 0;
    let mut failed = false;
    while i < len && !failed
        invariant
            i <= len,
            len == contents.len(),
            zip_contents(*archive) == contents,
            entries@.len() == i,
            forall|k: int|
                0 <= k < (if failed { i - 1 } else { i as int }) ==> (#[trigger] entries@[k]) is Ok
                    && Some(entries@[k]->Ok_0@) == without_mode(contents[k]),
            failed ==> i >= 1 && entries@[i - 1] is Err && contents[i - 1] is None,
        decreases len - i + (if failed { 0int } else { 1int }),
    {
        let r = match zip_entry(archive, i) {
            Ok(e) => Ok(ArchiveEntry { path: e.path, is_dir: e.is_dir, mode: None, data: e.data }),
            Err(words) => {
                failed = true;
                Err(words)
            },
        };
        entries.push(r);
        i += 1;
    }
    let ghost listing = listing_of(entries@);
    let ghost n: int = if failed { i - 1 } else { i as int };
    let ghost a: int = accepted(listing) as int;
    proof {
        assert forall|k: int| 0 <= k < n implies (#[trigger] listing[k]) is Some && listing[k]
            == bare[k] by {
            assert(entries@[k] is Ok);
        }
        lemma_accepted(listing);
        if failed {
            assert(listing[n] is None);
            assert(bare[n] is None);
        }
        assert(a <= n);
        assert forall|k: int| 0 <= k < a implies unpackable(#[trigger] bare[k]) by {
            assert(unpackable(listing[k]));
        }
        lemma_accepted_is(bare, a);
    }
    let x = plan_extraction(name, output_dir.as_str(), entries, "Failed to get zip file: ");
    proof {
        assert forall|k: int| 0 <= k < x.steps@.len() implies (#[trigger] x.steps@[k])@
            == step_of(output_dir@, k, bare[k]->0) by {
            assert(listing[k] == bare[k]);
        }
        assert forall|k: int| 0 <= k < x.steps@.len() implies (#[trigger] x.steps@[k]).mode
            is None by {
            assert(x.steps@[k]@ == step_of(output_dir@, k, bare[k]->0));
            assert(unpackable(bare[k]));
        }
        assert forall|k: int| 0 <= k < x.steps@.len() implies stays_inside(
            (#[trigger] contents[k])->0.path,
        ) by {
            assert(unpackable(bare[k]));
        }
        if x.outcome is Err {
            if entries@[a] is Err {
                lemma_starts_with_prefix("Failed to get zip file: "@, entries@[a]->Err_0@);
            } else {
                assert(listing[a] == bare[a]);
            }
        }
    }
    x
}

/// Plans the unpacking of the gzip-compressed tar archive named `name`
/// into `output_dir`: one step for each entry, in the order of the
/// archive, up to the first that cannot be read or whose path leaves the
/// output directory. Every step stays inside that directory.
pub fn extract_tar_gz(name: &str, output_dir: &String, bytes: &Vec<u8>) -> (x: Extraction)
    ensures
        unpacks(x, name@, output_dir@, tar_gz_listing(bytes@)),
        forall|i: int|
            0 <= i < x.steps@.len() ==> stays_inside((#[trigger] tar_gz_listing(bytes@)[i])->0.path),
        x.outcome matches Err(words) ==> fails_as(
            words@,
            tar_gz_listing(bytes@),
            "Failed to get entry: "@,
        ),
{
    let entries = tar_gz_entries(bytes);
    let ghost a = accepted(listing_of(entries@)) as int;
    let x = plan_extraction(name, output_dir.as_str(), entries, "Failed to get entry: ");
    proof {
        lemma_accepted(listing_of(entries@));
        if x.outcome is Err {
            if entries@[a] is Err {
                lemma_starts_with_prefix("Failed to get entry: "@, entries@[a]->Err_0@);
            }
        }
    }
    x
}

/// Whether `x` is what unpacking `bytes` as an archive of `kind` comes to.
/// Bytes that are no zip archive give no step and a failure.
pub open spec fn extracts(
    x: Extraction,
    kind: ArchiveKind,
    name: Seq<char>,
    output_dir: Seq<char>,
    bytes: Seq<u8>,
) -> bool {
    match kind {
        ArchiveKind::TarGzip => unpacks(x, name, output_dir, tar_gz_listing(bytes)),
        ArchiveKind::Zip => match zip_listing(bytes) {
            Some(listing) => unpacks(x, name, output_dir, without_modes(listing)),
            None => {
                &&& x.started@ == started_report(name)
                &&& x.output_dir@ == output_dir
                &&& x.steps@.len() == 0
                &&& x.outcome is Err
            },
        },
    }
}

/// Plans the unpacking of the archive named `name`, of the format `kind`
/// and with the content `bytes`, into `output_dir`.
pub fn extract(kind: ArchiveKind, name: &str, output_dir: &String, bytes: Vec<u8>) -> (x:
    Extraction)
    ensures
        extracts(x, kind, name@, output_dir@, bytes@),
{
    match kind {
        ArchiveKind::TarGzip => extract_tar_gz(name, output_dir, &bytes),
        ArchiveKind::Zip => match open_zip(bytes) {
            Ok(archive) => {
                let mut archive = archive;
                extract_zip(name, output_dir, &mut archive)
            },
            Err(words) => Extraction {
                started: started(name),
                output_dir: output_dir.clone(),
                steps: Vec::new(),
                outcome: Err(words),
            },
        },
    }
}

/// Unpacking keeps what the archive holds, and keeps inside the output
/// directory: every step is for an entry whose path has no component
/// `..`, and writes the bytes of that entry to that path under the output
/// directory. Where the unpacking succeeds there is a step for every entry.
pub proof fn lemma_unpacking_mirrors_archive(
    x: Extraction,
    name: Seq<char>,
    output_dir: Seq<char>,
    listing: Seq<Option<EntryView>>,
    i: int,
)
    requires
        unpacks(x, name, output_dir, listing),
        0 <= i < x.steps@.len(),
    ensures
        listing[i] is Some,
        stays_inside(listing[i]->0.path),
        x.steps@[i]@.target == child(output_dir, listing[i]->0.path),
        starts_with(x.steps@[i]@.target, output_dir + "/"@),
        x.steps@[i]@.data == listing[i]->0.data,
        x.steps@[i]@.is_dir == listing[i]->0.is_dir,
        x.steps@[i]@.mode == kept_mode(listing[i]->0.mode),
        x.outcome is Ok ==> x.steps@.len() == listing.len(),
{
    assert(unpackable(listing[i]));
    lemma_starts_with_prefix(output_dir + "/"@, listing[i]->0.path);
}

/// Whether the entry at place `i` of `contents` could be read and is named `name`.
pub open spec fn is_named(contents: Seq<Option<EntryView>>, name: Seq<char>, i: int) -> bool {
    0 <= i < contents.len() && contents[i] is Some && contents[i]->0.path == name
}

/// The entry of that name among `contents`, where one could be read.
pub open spec fn entry_named(contents: Seq<Option<EntryView>>, name: Seq<char>) -> Option<
    EntryView,
> {
    if exists|i: int| is_named(contents, name, i) {
        contents[choose|i: int| is_named(contents, name, i)]
    } else {
        None
    }
}

/// Reads the entry named `name` from a zip archive.
///
/// Fails exactly where the archive has no entry of that name that can be read.
pub fn read_zip_entry(archive: &mut zip::ZipArchive<std::io::Cursor<Vec<u8>>>, name: &str) -> (r:
    Result<ArchiveEntry, String>)
    ensures
        zip_contents(*final(archive)) == zip_contents(*old(archive)),
        zip_names(*final(archive)) == zip_names(*old(archive)),
        match r {
            Ok(e) => entry_named(zip_contents(*old(archive)), name@) == Some(e@),
            Err(_) => entry_named(zip_contents(*old(archive)), name@) is None,
        },
{
    let ghost contents = zip_contents(*archive);
    match zip_index_of(archive, name) {
        None => {
            proof {
                assert forall|i: int| !is_named(contents, name@, i) by {
                    if 0 <= i < contents.len() && contents[i] is Some {
                        assert(contents[i]->0.path != name@);
                    }
                }
            }
            Err(String::from_str("specified file not found in archive"))
        },
        Some(at) => {
            let r = zip_entry(archive, at);
            proof {
                assert forall|i: int| is_named(contents, name@, i) implies i == at by {
                    if i != at {
                        assert(contents[i]->0.path != name@);
                    }
                }
                if r is Ok {
                    assert(is_named(contents, name@, at as int));
                }
            }
            r
        },
    }
}

} // verus!
