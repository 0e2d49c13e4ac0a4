use std::io::Write;

use game_launcher::archive::{
    archive_kind, extract, extract_tar_gz, extract_zip, open_zip, parent_of_entry, plan_extraction,
    plan_step, read_zip_entry, reversed, started, ArchiveEntry, ArchiveKind, Extraction,
};

fn stored() -> zip::write::SimpleFileOptions {
    zip::write::SimpleFileOptions::default().compression_method(zip::CompressionMethod::Stored)
}

fn deflated() -> zip::write::SimpleFileOptions {
    zip::write::SimpleFileOptions::default().compression_method(zip::CompressionMethod::Deflated)
}

fn nested_zip() -> Vec<u8> {
    let mut w = zip::ZipWriter::new(std::io::Cursor::new(Vec::new()));
    w.add_directory("jdk/", stored()).unwrap();
    w.add_directory("jdk/bin/", stored()).unwrap();
    w.start_file("jdk/bin/java", stored().unix_permissions(0o755)).unwrap();
    w.write_all(b"#!/bin/sh\nexec true\n").unwrap();
    w.start_file("jdk/lib/modules/base.bin", deflated()).unwrap();
    w.write_all(&[0u8, 1, 2, 3, 255, 254, 0, 0, 0, 7]).unwrap();
    w.start_file("jdk/release", deflated()).unwrap();
    w.write_all(b"JAVA_VERSION=\"17.0.2\"\n").unwrap();
    w.start_file("empty.txt", stored()).unwrap();
    w.finish().unwrap().into_inner()
}

fn nested_tar_gz() -> Vec<u8> {
    let gz = flate2::write::GzEncoder::new(Vec::new(), flate2::Compression::default());
    let mut b = tar::Builder::new(gz);
    let mut dir = tar::Header::new_gnu();
    dir.set_entry_type(tar::EntryType::Directory);
    dir.set_size(0);
    dir.set_mode(0o755);
    b.append_data(&mut dir, "jdk/bin", std::io::empty()).unwrap();
    let java: &[u8] = b"#!/bin/sh\nexec true\n";
    let mut file = tar::Header::new_gnu();
    file.set_size(java.len() as u64);
    file.set_mode(0o755);
    b.append_data(&mut file, "jdk/bin/java", java).unwrap();
    let release: &[u8] = b"JAVA_VERSION=\"17.0.2\"\n";
    let mut file = tar::Header::new_gnu();
    file.set_size(release.len() as u64);
    file.set_mode(0o644);
    b.append_data(&mut file, "jdk/release", release).unwrap();
    b.into_inner().unwrap().finish().unwrap()
}

fn written(x: &Extraction) -> Vec<(String, bool, Vec<u8>)> {
    x.steps.iter().map(|s| (s.target.clone(), s.is_dir, s.data.clone())).collect()
}

#[test]
fn the_ending_of_the_name_tells_the_format() {
    assert_eq!(archive_kind("jdk-17.tar.gz"), Some(ArchiveKind::TarGzip));
    assert_eq!(archive_kind("jdk-17.zip"), Some(ArchiveKind::Zip));
    assert_eq!(archive_kind("jdk-17.tar"), None);
    assert_eq!(archive_kind("jdk-17.tgz"), None);
    assert_eq!(archive_kind("jdk-17.zip.sha256"), None);
    assert_eq!(archive_kind("jdk-17.ZIP"), None);
    assert_eq!(archive_kind(""), None);
    assert_eq!(archive_kind(".zip"), Some(ArchiveKind::Zip));
    assert_eq!(archive_kind(".tar.gz"), Some(ArchiveKind::TarGzip));
}

#[test]
fn extracting_a_zip_reproduces_its_structure() {
    let mut archive = open_zip(nested_zip()).unwrap();
    let out = "/data/sdks/java/17.0.2".to_string();
    let x = extract_zip("jdk.zip", &out, &mut archive);
    assert!(x.outcome.is_ok());
    assert_eq!(x.output_dir, out);
    assert_eq!(
        written(&x),
        vec![
            ("/data/sdks/java/17.0.2/jdk/".to_string(), true, vec![]),
            ("/data/sdks/java/17.0.2/jdk/bin/".to_string(), true, vec![]),
            ("/data/sdks/java/17.0.2/jdk/bin/java".to_string(), false, b"#!/bin/sh\nexec true\n".to_vec()),
            (
                "/data/sdks/java/17.0.2/jdk/lib/modules/base.bin".to_string(),
                false,
                vec![0u8, 1, 2, 3, 255, 254, 0, 0, 0, 7]
            ),
            ("/data/sdks/java/17.0.2/jdk/release".to_string(), false, b"JAVA_VERSION=\"17.0.2\"\n".to_vec()),
            ("/data/sdks/java/17.0.2/empty.txt".to_string(), false, vec![]),
        ]
    );
    let parents: Vec<&str> = x.steps.iter().map(|s| s.parent.as_str()).collect();
    assert_eq!(
        parents,
        vec![
            "/data/sdks/java/17.0.2",
            "/data/sdks/java/17.0.2/jdk",
            "/data/sdks/java/17.0.2/jdk/bin",
            "/data/sdks/java/17.0.2/jdk/lib/modules",
            "/data/sdks/java/17.0.2/jdk",
            "/data/sdks/java/17.0.2",
        ]
    );
    assert!(x.steps.iter().all(|s| s.mode.is_none()));
}

#[test]
fn extracting_a_zip_reports_each_entry_and_the_end() {
    let mut archive = open_zip(nested_zip()).unwrap();
    let x = extract_zip("jdk.zip", &"/out".to_string(), &mut archive);
    assert_eq!(x.started.status, "Extracting: jdk.zip");
    assert_eq!(x.started.downloaded, 0);
    assert_eq!(x.started.total, 0);
    assert_eq!(x.started.percent, 100);
    assert!(x.started.downloading);
    for (i, s) in x.steps.iter().enumerate() {
        assert_eq!(s.progress.downloaded, i as u64);
        assert_eq!(s.progress.total, i as u64);
        assert_eq!(s.progress.percent, 100);
        assert!(s.progress.downloading);
    }
    assert_eq!(x.steps[2].progress.status, "Extracting: jdk/bin/java");
    let end = x.outcome.unwrap();
    assert_eq!((end.downloaded, end.total, end.percent, end.downloading), (1, 1, 100, false));
    assert_eq!(end.status, "Completed!");
}

#[test]
fn extracting_twice_gives_the_same_steps() {
    let mut archive = open_zip(nested_zip()).unwrap();
    let out = "/out".to_string();
    let a = extract_zip("jdk.zip", &out, &mut archive);
    let b = extract_zip("jdk.zip", &out, &mut archive);
    assert_eq!(written(&a), written(&b));
}

#[test]
fn extracting_an_empty_zip_completes_without_steps() {
    let bytes = zip::ZipWriter::new(std::io::Cursor::new(Vec::new())).finish().unwrap().into_inner();
    let x = extract(ArchiveKind::Zip, "e.zip", &"/out".to_string(), bytes);
    assert!(x.steps.is_empty());
    assert_eq!(x.outcome.unwrap().status, "Completed!");
}

#[test]
fn bytes_that_are_no_zip_fail_to_open() {
    let e = open_zip(b"this is not an archive".to_vec()).unwrap_err();
    assert!(e.starts_with("Failed to open SDK package: "), "{}", e);
    let x = extract(ArchiveKind::Zip, "x.zip", &"/out".to_string(), b"nothing".to_vec());
    assert!(x.steps.is_empty());
    assert_eq!(x.started.status, "Extracting: x.zip");
    assert_eq!(x.output_dir, "/out");
    assert!(x.outcome.unwrap_err().starts_with("Failed to open SDK package: "));
}

#[test]
fn a_zip_entry_that_cannot_be_read_stops_the_extraction() {
    let mut bytes = nested_zip();
    let at = bytes.windows(20).position(|w| w == b"#!/bin/sh\nexec true\n").unwrap();
    bytes[at] = b'?';
    let x = extract(ArchiveKind::Zip, "jdk.zip", &"/out".to_string(), bytes);
    assert_eq!(x.steps.len(), 2);
    assert_eq!(x.steps[0].target, "/out/jdk/");
    assert_eq!(x.steps[1].target, "/out/jdk/bin/");
    let words = x.outcome.unwrap_err();
    assert!(words.starts_with("Failed to get zip file: "), "{}", words);
}

#[test]
fn extracting_a_tar_gz_reproduces_its_structure() {
    let bytes = nested_tar_gz();
    let out = "/data/sdks/java/17.0.2".to_string();
    let x = extract_tar_gz("jdk.tar.gz", &out, &bytes);
    assert!(x.outcome.is_ok());
    assert_eq!(x.started.status, "Extracting: jdk.tar.gz");
    assert_eq!(
        written(&x),
        vec![
            ("/data/sdks/java/17.0.2/jdk/bin".to_string(), true, vec![]),
            ("/data/sdks/java/17.0.2/jdk/bin/java".to_string(), false, b"#!/bin/sh\nexec true\n".to_vec()),
            ("/data/sdks/java/17.0.2/jdk/release".to_string(), false, b"JAVA_VERSION=\"17.0.2\"\n".to_vec()),
        ]
    );
    assert_eq!(x.steps[0].parent, "/data/sdks/java/17.0.2/jdk");
    assert_eq!(x.steps[1].parent, "/data/sdks/java/17.0.2/jdk/bin");
    assert_eq!(x.steps[1].mode, Some(0o755));
    assert_eq!(x.steps[2].mode, Some(0o644));
    assert_eq!(x.steps[2].progress.downloaded, 2);
    let same = extract(ArchiveKind::TarGzip, "jdk.tar.gz", &out, bytes);
    assert_eq!(written(&same), written(&x));
}

#[test]
fn bytes_that_are_no_tar_gz_fail_at_the_first_entry() {
    let x = extract_tar_gz("x.tar.gz", &"/out".to_string(), &b"not gzip at all".to_vec());
    assert!(x.steps.is_empty());
    assert!(x.outcome.unwrap_err().starts_with("Failed to get entry: "));
}

#[test]
fn a_truncated_tar_gz_keeps_the_steps_before_the_failure() {
    let mut bytes = nested_tar_gz();
    bytes.truncate(bytes.len() / 2);
    let x = extract_tar_gz("x.tar.gz", &"/out".to_string(), &bytes);
    assert!(x.steps.len() < 3);
    assert!(x.outcome.unwrap_err().starts_with("Failed to get entry: "));
}

#[test]
fn parent_of_an_entry_is_the_directory_that_holds_it() {
    assert_eq!(parent_of_entry("/out", "a/b/c.txt"), "/out/a/b");
    assert_eq!(parent_of_entry("/out", "a/b/"), "/out/a");
    assert_eq!(parent_of_entry("/out", "a/b//"), "/out/a");
    assert_eq!(parent_of_entry("/out", "c.txt"), "/out");
    assert_eq!(parent_of_entry("/out", "dir/"), "/out");
    assert_eq!(parent_of_entry("/out", ""), "/out");
}

#[test]
fn plan_step_places_the_entry_under_the_output_directory() {
    let entry = ArchiveEntry {
        path: "lib/x.so".to_string(),
        is_dir: false,
        mode: Some(0o644),
        data: vec![1, 2, 3],
    };
    let s = plan_step("/out", 4, entry);
    assert_eq!(s.target, "/out/lib/x.so");
    assert_eq!(s.parent, "/out/lib");
    assert!(!s.is_dir);
    assert_eq!(s.mode, Some(0o644));
    assert_eq!(s.data, vec![1, 2, 3]);
    assert_eq!(s.progress.downloaded, 4);
    assert_eq!(s.progress.total, 4);
    assert_eq!(s.progress.percent, 100);
    assert!(s.progress.downloading);
    assert_eq!(s.progress.status, "Extracting: lib/x.so");
}

#[test]
fn plan_extraction_stops_before_the_first_failure() {
    let file = |p: &str| ArchiveEntry { path: p.to_string(), is_dir: false, mode: None, data: vec![9] };
    let entries = vec![Ok(file("a")), Ok(file("b")), Err("bad crc".to_string()), Ok(file("c"))];
    let x = plan_extraction("p.zip", "/o", entries, "Failed to get zip file: ");
    assert_eq!(written(&x), vec![("/o/a".to_string(), false, vec![9]), ("/o/b".to_string(), false, vec![9])]);
    assert_eq!(x.outcome.unwrap_err(), "Failed to get zip file: bad crc");
    let all = plan_extraction("p.zip", "/o", vec![Ok(file("a"))], "Failed: ");
    assert_eq!(all.steps.len(), 1);
    assert_eq!(all.outcome.unwrap().status, "Completed!");
    let none = plan_extraction("p.zip", "/o", vec![Err("x".to_string())], "Failed: ");
    assert!(none.steps.is_empty());
    assert_eq!(none.outcome.unwrap_err(), "Failed: x");
}

#[test]
fn started_names_the_archive() {
    let info = started("jdk-17.tar.gz");
    assert_eq!(info.status, "Extracting: jdk-17.tar.gz");
    assert_eq!((info.downloaded, info.total, info.percent, info.downloading), (0, 0, 100, true));
}

#[test]
fn read_zip_entry_finds_an_entry_by_its_name() {
    let mut archive = open_zip(nested_zip()).unwrap();
    let e = read_zip_entry(&mut archive, "jdk/release").unwrap();
    assert_eq!(e.path, "jdk/release");
    assert_eq!(e.data, b"JAVA_VERSION=\"17.0.2\"\n".to_vec());
    assert!(!e.is_dir);
    let d = read_zip_entry(&mut archive, "jdk/bin/").unwrap();
    assert!(d.is_dir);
    assert!(d.data.is_empty());
    assert!(read_zip_entry(&mut archive, "jdk/missing").is_err());
    assert!(read_zip_entry(&mut archive, "release").is_err());
}

#[test]
fn reversed_turns_a_list_around() {
    assert_eq!(reversed(vec![1, 2, 3]), vec![3, 2, 1]);
    assert_eq!(reversed(vec!["a".to_string()]), vec!["a".to_string()]);
    assert_eq!(reversed(Vec::<u8>::new()), Vec::<u8>::new());
}

fn climbing_tar_gz() -> Vec<u8> {
    let gz = flate2::write::GzEncoder::new(Vec::new(), flate2::Compression::default());
    let mut b = tar::Builder::new(gz);
    let ok: &[u8] = b"fine";
    let mut file = tar::Header::new_gnu();
    file.set_size(ok.len() as u64);
    file.set_mode(0o644);
    b.append_data(&mut file, "inside.txt", ok).unwrap();
    let evil: &[u8] = b"evil";
    let mut file = tar::Header::new_gnu();
    let name = b"../evil";
    file.as_old_mut().name[..name.len()].copy_from_slice(name);
    file.set_size(evil.len() as u64);
    file.set_mode(0o644);
    file.set_cksum();
    b.append(&file, evil).unwrap();
    let mut file = tar::Header::new_gnu();
    file.set_size(ok.len() as u64);
    file.set_mode(0o644);
    b.append_data(&mut file, "after.txt", ok).unwrap();
    b.into_inner().unwrap().finish().unwrap()
}

#[test]
fn a_zip_entry_that_climbs_out_is_not_unpacked() {
    let mut w = zip::ZipWriter::new(std::io::Cursor::new(Vec::new()));
    w.start_file("inside.txt", stored()).unwrap();
    w.write_all(b"fine").unwrap();
    w.start_file("../evil", stored()).unwrap();
    w.write_all(b"evil").unwrap();
    w.start_file("after.txt", stored()).unwrap();
    w.write_all(b"fine").unwrap();
    let bytes = w.finish().unwrap().into_inner();
    let mut archive = open_zip(bytes).unwrap();
    let names: Vec<String> =
        (0..archive.len()).map(|i| archive.by_index(i).unwrap().name().to_string()).collect();
    assert_eq!(names, vec!["inside.txt", "../evil", "after.txt"]);
    let x = extract_zip("p.zip", &"/out".to_string(), &mut archive);
    assert_eq!(written(&x), vec![("/out/inside.txt".to_string(), false, b"fine".to_vec())]);
    assert_eq!(x.outcome.unwrap_err(), "Entry leaves the output directory: ../evil");
}

#[test]
fn a_tar_entry_that_climbs_out_is_not_unpacked() {
    let x = extract_tar_gz("p.tar.gz", &"/out".to_string(), &climbing_tar_gz());
    assert_eq!(written(&x), vec![("/out/inside.txt".to_string(), false, b"fine".to_vec())]);
    assert_eq!(x.outcome.unwrap_err(), "Entry leaves the output directory: ../evil");
}

#[test]
fn every_planned_step_lies_under_the_output_directory() {
    let file = |p: &str| ArchiveEntry { path: p.to_string(), is_dir: false, mode: None, data: vec![1] };
    for bad in ["..", "../x", "a/../../x", "a/..", "..\\x", "a\\..\\..\\x"] {
        let entries = vec![Ok(file("a/b")), Ok(file(bad)), Ok(file("c"))];
        let x = plan_extraction("p.zip", "/o", entries, "Failed: ");
        assert_eq!(x.steps.len(), 1, "{:?}", bad);
        assert_eq!(x.steps[0].target, "/o/a/b");
        assert_eq!(x.outcome.unwrap_err(), format!("Entry leaves the output directory: {}", bad));
    }
    let fine = vec![Ok(file("a..b")), Ok(file("...")), Ok(file("/abs")), Ok(file("x/.hidden"))];
    let x = plan_extraction("p.zip", "/o", fine, "Failed: ");
    let targets: Vec<&str> = x.steps.iter().map(|s| s.target.as_str()).collect();
    assert_eq!(targets, vec!["/o/a..b", "/o/...", "/o//abs", "/o/x/.hidden"]);
    assert!(x.outcome.is_ok());
    for s in x.steps.iter() {
        assert!(s.target.starts_with("/o/"));
        assert!(s.parent.starts_with("/o"));
    }
}

#[test]
fn plan_step_keeps_the_permission_bits_only() {
    let entry = |mode: Option<u32>| ArchiveEntry { path: "f".to_string(), is_dir: false, mode, data: vec![] };
    assert_eq!(plan_step("/o", 0, entry(Some(0o100755))).mode, Some(0o755));
    assert_eq!(plan_step("/o", 0, entry(Some(0o4755))).mode, Some(0o755));
    assert_eq!(plan_step("/o", 0, entry(Some(0o644))).mode, Some(0o644));
    assert_eq!(plan_step("/o", 0, entry(Some(0))).mode, Some(0));
    assert_eq!(plan_step("/o", 0, entry(Some(u32::MAX))).mode, Some(0o777));
    assert_eq!(plan_step("/o", 0, entry(None)).mode, None);
}
