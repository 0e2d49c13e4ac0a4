//! Progress of a transfer, as the launcher reports it.
//!
//! The bytes of a download come from outside. This module keeps the count:
//! it is told the length of each chunk as it arrives and answers with the
//! record that goes to whoever watches the transfer.

use vstd::prelude::*;
use crate::error::{Error, ErrorView};
use crate::text::{after_last, text_after_last, text_eq};

verus! {

/// One report on a long-running operation.
#[derive(Debug)]
pub struct DownloadInfo {
    /// The bytes or entries that are done.
    pub downloaded: u64,
    /// The bytes or entries in all; 0 where the number is not known.
    pub total: u64,
    /// The share that is done, from 0 to 100.
    pub percent: u32,
    /// Whether the operation is still going on.
    pub downloading: bool,
    /// A line for the user.
    pub status: String,
}

/// A [`DownloadInfo`] with its line as a sequence of characters.
pub struct DownloadInfoView {
    pub downloaded: u64,
    pub total: u64,
    pub percent: u32,
    pub downloading: bool,
    pub status: Seq<char>,
}

impl View for DownloadInfo {
    type V = DownloadInfoView;

    open spec fn view(&self) -> DownloadInfoView {
        DownloadInfoView {
            downloaded: self.downloaded,
            total: self.total,
            percent: self.percent,
            downloading: self.downloading,
            status: self.status@,
        }
    }
}

impl Clone for DownloadInfo {
    fn clone(&self) -> (copy: Self)
        ensures
            copy@ == self@,
    {
        DownloadInfo {
            downloaded: self.downloaded,
            total: self.total,
            percent: self.percent,
            downloading: self.downloading,
            status: self.status.clone(),
        }
    }
}

/// The share of `total` that `downloaded` is, in percent and at most 100;
/// 0 where the total is not known.
pub open spec fn percent_of(downloaded: u64, total: u64) -> u32 {
    if total == 0 {
        0
    } else if (100 * downloaded) / (total as int) >= 100 {
        100
    } else {
        ((100 * downloaded) / (total as int)) as u32
    }
}

/// The count after `len` more bytes, which stops at the largest number
/// that the record can hold.
pub open spec fn count_after(downloaded: u64, len: usize) -> u64 {
    if downloaded + len > u64::MAX {
        u64::MAX
    } else {
        (downloaded + len) as u64
    }
}

/// The report after a chunk of the file named `file_name` has arrived.
pub open spec fn chunk_report(downloaded: u64, total: u64, file_name: Seq<char>) -> DownloadInfoView {
    DownloadInfoView {
        downloaded,
        total,
        percent: percent_of(downloaded, total),
        downloading: true,
        status: "Downloading: "@ + file_name,
    }
}

/// The report that ends an operation.
pub open spec fn completed_report() -> DownloadInfoView {
    DownloadInfoView {
        downloaded: 1,
        total: 1,
        percent: 100,
        downloading: false,
        status: "Completed!"@,
    }
}

/// The failure of a download whose destination names no file.
pub open spec fn no_file_name() -> ErrorView {
    ErrorView::Download("Failed to get file path"@)
}

/// Whether a path names a file: what follows its last separator is
/// neither empty nor `..`.
pub open spec fn names_file(path: Seq<char>) -> bool {
    after_last(path, '/').len() > 0 && after_last(path, '/') != ".."@
}

/// The share of `total` that `downloaded` is, in percent.
pub fn percent(downloaded: u64, total: u64) -> (p: u32)
    ensures
        p == percent_of(downloaded, total),
        p <= 100,
{
    if total == 0 {
        return 0;
    }
    let scaled: u128 = 100u128 * (downloaded as u128);
    let share: u128 = scaled / (total as u128);
    if share >= 100 {
        100
    } else {
        share as u32
    }
}

/// The share that is done does not fall while the count grows.
pub proof fn lemma_percent_grows(earlier: u64, later: u64, total: u64)
    requires
        earlier <= later,
    ensures
        percent_of(earlier, total) <= percent_of(later, total),
{
    if total > 0 {
        let t = total as int;
        let a = 100 * earlier;
        let b = 100 * later;
        assert(a / t <= b / t) by (nonlinear_arith)
            requires
                0 <= a <= b,
                t > 0,
        ;
        assert(0 <= a / t) by (nonlinear_arith)
            requires
                0 <= a,
                t > 0,
        ;
    }
}

/// The report that ends an operation.
pub fn completed() -> (info: DownloadInfo)
    ensures
        info@ == completed_report(),
{
    DownloadInfo {
        downloaded: 1,
        total: 1,
        percent: 100,
        downloading: false,
        status: String::from_str("Completed!"),
    }
}

/// A transfer of one file that is under way.
#[derive(Debug)]
pub struct Download {
    /// The name of the file that is written.
    pub file_name: String,
    /// The length that the server announced; 0 where it announced none.
    pub total: u64,
    /// The bytes that have arrived.
    pub downloaded: u64,
}

/// Starts the count for a download to `file_path`, of which the server
/// announced `content_length` bytes, if it announced a number.
///
/// Fails where the path names no file.
pub fn download_file(file_path: &str, content_length: Option<u64>) -> (r: Result<Download, Error>)
    ensures
        match r {
            Ok(d) => {
                &&& names_file(file_path@)
                &&& d.file_name@ == after_last(file_path@, '/')
                &&& d.downloaded == 0
                &&& d.total == match content_length {
                    Some(n) => n,
                    None => 0,
                }
            },
            Err(e) => !names_file(file_path@) && e@ == no_file_name(),
        },
{
    let file_name = text_after_last(file_path, '/');
    if file_name.as_str().unicode_len() == 0 || text_eq(file_name.as_str(), "..") {
        return Err(Error::Download(String::from_str("Failed to get file path")));
    }
    let total: u64 = match content_length {
        Some(n) => n,
        None => 0,
    };
    Ok(Download { file_name, total, downloaded: 0 })
}

impl Download {
    /// Counts a chunk of `len` bytes that was written, and gives the
    /// report on the transfer after it. The count never falls.
    pub fn receive(&mut self, len: usize) -> (info: DownloadInfo)
        ensures
            final(self).downloaded == count_after(old(self).downloaded, len),
            final(self).downloaded >= old(self).downloaded,
            final(self).total == old(self).total,
            final(self).file_name == old(self).file_name,
            info@ == chunk_report(final(self).downloaded, old(self).total, old(self).file_name@),
            info.percent <= 100,
    {
        let room: u64 = u64::MAX - self.downloaded;
        if (len as u64) > room {
            self.downloaded = u64::MAX;
        } else {
            self.downloaded = self.downloaded + (len as u64);
        }
        let mut status = String::from_str("Downloading: ");
        status.append(self.file_name.as_str());
        DownloadInfo {
            downloaded: self.downloaded,
            total: self.total,
            percent: percent(self.downloaded, self.total),
            downloading: true,
            status,
        }
    }
}

} // verus!
