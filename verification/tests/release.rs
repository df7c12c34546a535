//! Finding, checking and unpacking the sing-box program.
use dakal_tls::binary::{
    deciding_entry, first_found, is_binary_entry, is_other_version, is_stale, release_url, search_places,
    unpack_release, Place, UnpackError, BINARY_NAME, NOT_IN_RELEASE, PINNED_VERSION, USER_AGENT,
};
use dakal_tls::classify::StartError;
use std::io::{Read, Write};

fn archive(entries: &[(&str, &[u8])]) -> Vec<u8> {
    let mut w = zip::ZipWriter::new(std::io::Cursor::new(Vec::new()));
    for (name, data) in entries {
        let options = zip::write::SimpleFileOptions::default()
            .compression_method(zip::CompressionMethod::Stored);
        w.start_file(*name, options).unwrap();
        w.write_all(data).unwrap();
    }
    w.finish().unwrap().into_inner()
}

fn position(bytes: &[u8], needle: &[u8]) -> usize {
    bytes.windows(needle.len()).position(|w| w == needle).unwrap()
}

#[test]
fn places_in_order() {
    assert_eq!(
        search_places(true),
        vec![
            Place::ExeDir,
            Place::ExeResources,
            Place::ExeBin,
            Place::WorkBin,
            Place::WorkDir,
            Place::ConfigDir,
        ]
    );
    assert_eq!(search_places(false), vec![Place::WorkBin, Place::WorkDir, Place::ConfigDir]);
}

#[test]
fn the_first_place_counts() {
    assert_eq!(first_found(&vec![false, true, true]), Some(1));
    assert_eq!(first_found(&vec![true]), Some(0));
    assert_eq!(first_found(&vec![false, false]), None);
    assert_eq!(first_found(&Vec::new()), None);
}

#[test]
fn stale_programs() {
    assert!(!is_other_version("sing-box version 1.13.19\n"));
    assert!(is_other_version("sing-box version 1.14.0\n"));
    assert!(is_stale(Some(b"sing-box version 1.13.1")));
    assert!(is_stale(Some(b"")));
    assert!(!is_stale(None));
    // What is no UTF-8 is read around.
    assert!(!is_stale(Some(b"\xff\xfe 1.13.19 \xff")));
    assert!(is_stale(Some(b"1.13\xff.19")));
}

#[test]
fn where_the_release_comes_from() {
    assert_eq!(
        release_url(),
        "https://github.com/SagerNet/sing-box/releases/download/v1.13.19/sing-box-1.13.19-windows-amd64.zip"
    );
    assert_eq!(PINNED_VERSION, "1.13.19");
    assert_eq!(BINARY_NAME, "sing-box.exe");
    assert_eq!(USER_AGENT, "stls");
    assert_eq!(NOT_IN_RELEASE, "sing-box.exe not found in release");
}

#[test]
fn names_of_the_program() {
    assert!(is_binary_entry("sing-box.exe"));
    assert!(is_binary_entry("sing-box-1.13.19-windows-amd64/sing-box.exe"));
    assert!(!is_binary_entry("sing-box.exe.sig"));
    assert!(!is_binary_entry("box.exe"));
}

#[test]
fn the_first_deciding_entry_counts() {
    let name = |s: &str| Ok(s.to_string());
    let broken = || Err(StartError::new("broken".to_string()));
    assert_eq!(deciding_entry(&vec![name("a"), name("b/sing-box.exe"), broken()]), Some(1));
    assert_eq!(deciding_entry(&vec![name("a"), broken(), name("sing-box.exe")]), Some(1));
    assert_eq!(deciding_entry(&vec![name("a"), name("b")]), None);
    assert_eq!(deciding_entry(&Vec::new()), None);
}

#[test]
fn a_broken_entry_behind_the_program_is_harmless() {
    let mut bytes = archive(&[("sing-box.exe", b"program"), ("zz", b"text")]);
    let first = position(&bytes, b"PK\x01\x02");
    let second = first + 4 + position(&bytes[first + 4..], b"PK\x01\x02");
    bytes[second + 8] |= 1;
    assert_eq!(unpack_release(bytes).ok(), Some(b"program".to_vec()));
}

#[test]
fn the_first_program_is_unpacked() {
    let bytes = archive(&[
        ("dir/LICENSE", b"text"),
        ("dir/sing-box.exe", b"program"),
        ("other/sing-box.exe", b"another"),
    ]);
    assert_eq!(unpack_release(bytes).ok(), Some(b"program".to_vec()));
}

#[test]
fn a_compressed_program_is_unpacked() {
    let program = vec![7u8; 10000];
    let mut w = zip::ZipWriter::new(std::io::Cursor::new(Vec::new()));
    let options = zip::write::SimpleFileOptions::default()
        .compression_method(zip::CompressionMethod::Deflated);
    w.start_file("sing-box.exe", options).unwrap();
    w.write_all(&program).unwrap();
    let bytes = w.finish().unwrap().into_inner();
    assert!(bytes.len() < 1000);
    assert_eq!(unpack_release(bytes).ok(), Some(program));
}

#[test]
fn a_release_without_the_program() {
    let bytes = archive(&[("dir/LICENSE", b"text")]);
    assert!(matches!(unpack_release(bytes), Err(UnpackError::Missing)));
    assert!(matches!(unpack_release(archive(&[])), Err(UnpackError::Missing)));
}

/// The text of an error, and that of its chain of causes.
fn texts(e: anyhow::Error) -> (String, String) {
    (e.to_string(), format!("{e:#}"))
}

fn failure(r: Result<Vec<u8>, UnpackError>) -> (String, String) {
    match r {
        Ok(_) => panic!("unpacked"),
        Err(e) => {
            let e = e.into_start_error();
            (e.message, e.detail)
        }
    }
}

#[test]
fn what_is_no_archive() {
    for bytes in [Vec::new(), b"<html>".to_vec()] {
        let reason = zip::ZipArchive::new(std::io::Cursor::new(bytes.clone())).err().unwrap();
        assert!(matches!(unpack_release(bytes.clone()), Err(UnpackError::Archive(_))));
        assert_eq!(failure(unpack_release(bytes)), texts(reason.into()));
    }
}

#[test]
fn the_first_entry_that_cannot_be_opened() {
    let mut bytes = archive(&[("a", b"text"), ("b", b"text"), ("sing-box.exe", b"program")]);
    // The first entry of the directory is marked as encrypted, and the local header
    // of the second one is damaged.
    let first = position(&bytes, b"PK\x01\x02");
    bytes[first + 8] |= 1;
    let second = 4 + position(&bytes[4..], b"PK\x03\x04");
    bytes[second] = b'Q';
    assert!(matches!(unpack_release(bytes.clone()), Err(UnpackError::Entry(_))));
    let (message, detail) = failure(unpack_release(bytes));
    assert_eq!(message, "unsupported Zip archive: Password required to decrypt file");
    assert_eq!(detail, message);
}

#[test]
fn a_damaged_entry_is_told_with_its_cause() {
    let mut bytes = archive(&[("a", b"text"), ("sing-box.exe", b"program")]);
    bytes[0] = b'Q';
    let mut direct = zip::ZipArchive::new(std::io::Cursor::new(bytes.clone())).unwrap();
    let reason = direct.by_index(0).err().unwrap();
    assert!(matches!(unpack_release(bytes.clone()), Err(UnpackError::Entry(_))));
    assert_eq!(failure(unpack_release(bytes)), texts(reason.into()));
}

#[test]
fn a_program_that_cannot_be_read() {
    let mut bytes = archive(&[("sing-box.exe", b"program")]);
    let i = position(&bytes, b"program");
    bytes[i] = b'P';
    let mut direct = zip::ZipArchive::new(std::io::Cursor::new(bytes.clone())).unwrap();
    let reason = direct.by_index(0).unwrap().read_to_end(&mut Vec::new()).err().unwrap();
    assert!(matches!(unpack_release(bytes.clone()), Err(UnpackError::Read(_))));
    assert_eq!(failure(unpack_release(bytes)), texts(reason.into()));
}

#[test]
fn a_missing_program_is_told() {
    let reason = "sing-box.exe not found in release".to_string();
    assert_eq!(failure(unpack_release(archive(&[]))), (reason.clone(), reason));
}
