use game_launcher::error::Error;
use game_launcher::net::{completed, download_file, percent};

#[test]
fn percent_is_the_share_of_the_total() {
    assert_eq!(percent(0, 200), 0);
    assert_eq!(percent(1, 200), 0);
    assert_eq!(percent(2, 200), 1);
    assert_eq!(percent(50, 200), 25);
    assert_eq!(percent(199, 200), 99);
    assert_eq!(percent(200, 200), 100);
    assert_eq!(percent(1, 3), 33);
    assert_eq!(percent(2, 3), 66);
}

#[test]
fn percent_of_an_unknown_total_is_zero() {
    assert_eq!(percent(0, 0), 0);
    assert_eq!(percent(12345, 0), 0);
    assert_eq!(percent(u64::MAX, 0), 0);
}

#[test]
fn percent_stops_at_hundred_and_does_not_overflow() {
    assert_eq!(percent(300, 200), 100);
    assert_eq!(percent(u64::MAX, 1), 100);
    assert_eq!(percent(u64::MAX, u64::MAX), 100);
    assert_eq!(percent(u64::MAX / 2, u64::MAX), 49);
    assert_eq!(percent(u64::MAX - 1, u64::MAX), 99);
}

#[test]
fn completed_is_one_of_one() {
    let info = completed();
    assert_eq!(info.downloaded, 1);
    assert_eq!(info.total, 1);
    assert_eq!(info.percent, 100);
    assert!(!info.downloading);
    assert_eq!(info.status, "Completed!");
    let copy = info.clone();
    assert_eq!(copy.status, "Completed!");
    assert_eq!(copy.downloaded, 1);
}

#[test]
fn a_download_counts_what_arrives() {
    let mut d = download_file("/data/temp/jdk-17.tar.gz", Some(1000)).unwrap();
    assert_eq!(d.file_name, "jdk-17.tar.gz");
    assert_eq!(d.total, 1000);
    assert_eq!(d.downloaded, 0);
    let a = d.receive(250);
    assert_eq!(a.downloaded, 250);
    assert_eq!(a.total, 1000);
    assert_eq!(a.percent, 25);
    assert!(a.downloading);
    assert_eq!(a.status, "Downloading: jdk-17.tar.gz");
    let b = d.receive(0);
    assert_eq!(b.downloaded, 250);
    assert_eq!(b.percent, 25);
    let c = d.receive(750);
    assert_eq!(c.downloaded, 1000);
    assert_eq!(c.percent, 100);
    assert_eq!(d.downloaded, 1000);
}

#[test]
fn a_download_of_unknown_length_reports_total_zero() {
    let mut d = download_file("a.zip", None).unwrap();
    assert_eq!(d.file_name, "a.zip");
    assert_eq!(d.total, 0);
    let a = d.receive(4096);
    assert_eq!(a.downloaded, 4096);
    assert_eq!(a.total, 0);
    assert_eq!(a.percent, 0);
}

#[test]
fn progress_never_falls() {
    let mut d = download_file("/t/x.zip", Some(10_000)).unwrap();
    let mut last_count = 0;
    let mut last_percent = 0;
    for len in [1usize, 500, 0, 4000, 7, 9000, 3] {
        let info = d.receive(len);
        assert!(info.downloaded >= last_count);
        assert!(info.percent >= last_percent);
        assert!(info.percent <= 100);
        last_count = info.downloaded;
        last_percent = info.percent;
    }
    assert_eq!(last_count, 13511);
    assert_eq!(last_percent, 100);
}

#[test]
fn the_count_stops_at_the_largest_number() {
    let mut d = download_file("/t/x.zip", Some(5)).unwrap();
    d.downloaded = u64::MAX - 3;
    let info = d.receive(10);
    assert_eq!(info.downloaded, u64::MAX);
    assert_eq!(d.downloaded, u64::MAX);
    let again = d.receive(1);
    assert_eq!(again.downloaded, u64::MAX);
}

#[test]
fn a_download_needs_a_file_name() {
    for path in ["", "/data/temp/", "/data/temp/..", ".."] {
        match download_file(path, Some(1)) {
            Err(Error::Download(s)) => assert_eq!(s, "Failed to get file path"),
            other => panic!("unexpected {:?}", other),
        }
    }
}
