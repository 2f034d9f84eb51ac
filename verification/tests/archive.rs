use pingo_share::archive::{assemble_archive, check_names, ArchiveError, ArchiveFile};
use pingo_share::download::{plan_download, Download};
use std::io::Read;

fn file(name: &str, content: &[u8]) -> ArchiveFile {
    ArchiveFile { name: name.to_string(), content: content.to_vec() }
}

fn unpack(bytes: Vec<u8>) -> Vec<(String, Vec<u8>)> {
    let mut archive = zip::ZipArchive::new(std::io::Cursor::new(bytes)).unwrap();
    let mut out = Vec::new();
    for i in 0..archive.len() {
        let mut entry = archive.by_index(i).unwrap();
        let mut content = Vec::new();
        entry.read_to_end(&mut content).unwrap();
        out.push((entry.name().to_string(), content));
    }
    out
}

#[test]
fn archive_holds_the_files_in_order() {
    let files = vec![file("a.txt", b"first"), file("b.txt", b"second file"), file("c.bin", &[0u8; 5000])];
    let bytes = assemble_archive(&files).unwrap();
    assert_eq!(
        unpack(bytes),
        vec![
            ("a.txt".to_string(), b"first".to_vec()),
            ("b.txt".to_string(), b"second file".to_vec()),
            ("c.bin".to_string(), vec![0u8; 5000]),
        ]
    );
}

#[test]
fn archive_entries_are_deflated() {
    let files = vec![file("zeros", &[0u8; 100000])];
    let bytes = assemble_archive(&files).unwrap();
    assert!(bytes.len() < 2000);
    let mut archive = zip::ZipArchive::new(std::io::Cursor::new(bytes)).unwrap();
    let entry = archive.by_index(0).unwrap();
    assert_eq!(entry.compression(), zip::CompressionMethod::Deflated);
}

#[test]
fn archive_is_reproducible() {
    let files = vec![file("a.txt", b"first"), file("b.txt", b"second")];
    let one = assemble_archive(&files).unwrap();
    let two = assemble_archive(&files.clone()).unwrap();
    assert_eq!(one, two);
}

#[test]
fn archive_depends_on_names_and_contents() {
    let base = assemble_archive(&vec![file("a.txt", b"first")]).unwrap();
    assert_ne!(base, assemble_archive(&vec![file("b.txt", b"first")]).unwrap());
    assert_ne!(base, assemble_archive(&vec![file("a.txt", b"other")]).unwrap());
}

#[test]
fn archive_of_file_without_bytes() {
    let bytes = assemble_archive(&vec![file("empty", b""), file("x", b"1")]).unwrap();
    assert_eq!(
        unpack(bytes),
        vec![("empty".to_string(), Vec::new()), ("x".to_string(), b"1".to_vec())]
    );
}

#[test]
fn archive_without_files_is_an_empty_archive() {
    let bytes = assemble_archive(&vec![]).unwrap();
    assert_eq!(unpack(bytes), vec![]);
}

#[test]
fn archive_refuses_a_name_that_is_too_long() {
    let long = "n".repeat(65536);
    assert_eq!(assemble_archive(&vec![file(&long, b"x")]), Err(ArchiveError::NameTooLong));
    assert!(!check_names(&vec![file("ok", b""), file(&long, b"x")]));
}

#[test]
fn archive_accepts_the_longest_name() {
    let longest = "n".repeat(65535);
    assert!(check_names(&vec![file(&longest, b"x")]));
    let bytes = assemble_archive(&vec![file(&longest, b"x")]).unwrap();
    assert_eq!(unpack(bytes), vec![(longest, b"x".to_vec())]);
}

#[test]
fn name_length_counts_bytes() {
    let name = "é".repeat(32768);
    assert!(!check_names(&vec![file(&name, b"x")]));
    let name = "é".repeat(32767);
    assert!(check_names(&vec![file(&name, b"x")]));
}

#[test]
fn archive_refuses_the_same_name_twice() {
    let files = vec![file("a.txt", b"one"), file("a.txt", b"two")];
    assert_eq!(assemble_archive(&files), Err(ArchiveError::Refused));
}

fn pack_upload(upload_id: &str, listing: &[&str]) -> Result<Vec<u8>, ArchiveError> {
    let listing: Vec<String> = listing.iter().map(|s| s.to_string()).collect();
    match plan_download(upload_id, &listing) {
        Ok(Download::Archive { members }) => {
            let files: Vec<ArchiveFile> = members
                .iter()
                .map(|m| ArchiveFile {
                    name: m.entry.clone(),
                    content: format!("content of {}", m.stored).into_bytes(),
                })
                .collect();
            assemble_archive(&files)
        }
        other => panic!("unexpected plan {:?}", other),
    }
}

#[test]
fn same_directory_gives_the_same_archive_in_any_listing_order() {
    let one = pack_upload("u", &["u_b.txt", "u_a.txt", "v_x", "u_c.txt"]).unwrap();
    let two = pack_upload("u", &["u_c.txt", "v_x", "u_a.txt", "u_b.txt"]).unwrap();
    let three = pack_upload("u", &["u_a.txt", "u_b.txt", "u_c.txt"]).unwrap();
    assert_eq!(one, two);
    assert_eq!(one, three);
    assert_eq!(
        unpack(one),
        vec![
            ("a.txt".to_string(), b"content of u_a.txt".to_vec()),
            ("b.txt".to_string(), b"content of u_b.txt".to_vec()),
            ("c.txt".to_string(), b"content of u_c.txt".to_vec()),
        ]
    );
}

#[test]
fn entries_that_differ_only_in_separators_cannot_be_packed() {
    assert_eq!(pack_upload("u", &["u_a\\b", "u_a_b"]), Err(ArchiveError::Refused));
    assert_eq!(pack_upload("u", &["u_a_b", "u_a\\b"]), Err(ArchiveError::Refused));
}

#[test]
fn refusal_leaves_later_packings_untouched() {
    let files = vec![file("a.txt", b"one"), file("a.txt", b"two")];
    assert_eq!(assemble_archive(&files), Err(ArchiveError::Refused));
    let good = vec![file("a.txt", b"one"), file("b.txt", b"two")];
    assert_eq!(
        unpack(assemble_archive(&good).unwrap()),
        vec![("a.txt".to_string(), b"one".to_vec()), ("b.txt".to_string(), b"two".to_vec())]
    );
}
