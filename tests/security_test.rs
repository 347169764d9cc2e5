use safe_unzip::{
    Action, EntryInfo, Error, ExtractionMode, ExtractionState, Extractor, Limits,
    OverwritePolicy, Report, ValidationMode, ZipSource,
};
use std::collections::{BTreeMap, BTreeSet};
use std::io::{Cursor, Seek, Write};
use zip::unstable::write::FileOptionsExt;
use zip::write::FileOptions;

// ============================================================================
// Helper Functions
// ============================================================================

/// A destination directory held in memory: regular files, symlinks and
/// directories by their path under the root.
#[derive(Default)]
struct MemFs {
    files: BTreeMap<String, Vec<u8>>,
    links: BTreeMap<String, String>,
    dirs: BTreeSet<String>,
    modes: BTreeMap<String, u32>,
}

const ROOT: &str = "/srv/dest";

fn extractor() -> Extractor {
    Extractor::new(ROOT, true).unwrap()
}

/// Runs the engine over a ZIP archive, performing its actions on `fs`.
fn extract_into(
    ext: &Extractor,
    data: Vec<u8>,
    fs: &mut MemFs,
    filter: &dyn Fn(&EntryInfo) -> bool,
) -> Result<Report, Error> {
    let driver = ext.driver();
    let mut src = ZipSource::from_bytes(data)?;
    if driver.current_validation() == ValidationMode::ValidateFirst {
        let entries = src.entries_metadata()?;
        driver.validate_all(&entries)?;
    }
    let mut state = ExtractionState::default();
    for i in 0..src.len() {
        let info = src.entry_info(i)?;
        let selected = filter(&info);
        match driver.begin_entry(&info, &mut state, selected)? {
            Action::Skip => {}
            Action::CreateDir => {
                fs.dirs.insert(info.name.trim_end_matches('/').to_string());
                driver.dir_created(&mut state);
            }
            Action::OpenFile { exclusive, replace_link } => {
                let path = info.name.clone();
                let taken = fs.files.contains_key(&path) || fs.links.contains_key(&path);
                if exclusive && taken {
                    driver.file_exists(&info, &mut state)?;
                    continue;
                }
                if replace_link {
                    fs.links.remove(&path);
                }
                let limit = driver.read_limit(&info, &state);
                let (bytes, excess) = src.read_entry(i, limit)?;
                fs.files.insert(path.clone(), bytes.clone());
                if let Some(mode) = driver.finish_file(&info, &mut state, bytes.len() as u64, excess)? {
                    fs.modes.insert(path, mode);
                }
            }
        }
    }
    Ok(safe_unzip::extractor::extraction_report_to_report(driver.report(&state)))
}

fn extract(ext: &Extractor, data: Vec<u8>, fs: &mut MemFs) -> Result<Report, Error> {
    extract_into(ext, data, fs, &|_| true)
}

/// Create a simple valid zip with one file
fn create_simple_zip(filename: &str, content: &[u8]) -> Vec<u8> {
    let mut zip = zip::ZipWriter::new(Cursor::new(Vec::new()));
    let options: FileOptions<()> = FileOptions::default();
    zip.start_file(filename, options).unwrap();
    zip.write_all(content).unwrap();
    zip.finish().unwrap().into_inner()
}

/// Create a zip with multiple files
fn create_multi_file_zip(files: &[(&str, &[u8])]) -> Vec<u8> {
    let mut zip = zip::ZipWriter::new(Cursor::new(Vec::new()));
    let options: FileOptions<()> = FileOptions::default();
    for (name, content) in files {
        zip.start_file(*name, options.clone()).unwrap();
        zip.write_all(content).unwrap();
    }
    zip.finish().unwrap().into_inner()
}

fn create_malicious_zip() -> Vec<u8> {
    let mut zip = zip::ZipWriter::new(Cursor::new(Vec::new()));
    let options: FileOptions<()> =
        FileOptions::default().compression_method(zip::CompressionMethod::Stored);
    zip.start_file("safe.txt", options.clone()).unwrap();
    zip.write_all(b"safe content").unwrap();
    zip.start_file("../../evil.txt", options).unwrap();
    zip.write_all(b"evil content").unwrap();
    zip.finish().unwrap().into_inner()
}

#[test]
fn test_blocks_zip_slip() {
    let mut fs = MemFs::default();
    let result = extract(&extractor(), create_malicious_zip(), &mut fs);

    match result {
        Err(Error::PathEscape { entry, .. }) => {
            assert_eq!(entry, "../../evil.txt");
        }
        Ok(_) => panic!("SECURITY FAIL: Malicious file was extracted!"),
        Err(e) => panic!("Unexpected error type: {:?}", e),
    }
    assert!(fs.files.keys().all(|k| !k.contains("evil.txt")));
}

#[test]
fn test_limits_quota() {
    let mut fs = MemFs::default();
    let zip_file = create_simple_zip("big.txt", &[0u8; 200]);
    let result = extract(&extractor().limits(Limits { max_total_bytes: 100, ..Default::default() }), zip_file, &mut fs);

    match result {
        Err(Error::TotalSizeExceeded { limit, would_be }) => {
            assert_eq!(limit, 100);
            assert_eq!(would_be, 200);
        }
        _ => panic!("Failed to enforce quota"),
    }
    assert!(fs.files.is_empty());
}

#[test]
fn test_validate_first_no_partial_state() {
    let zip_file = create_multi_file_zip(&[("good.txt", b"This is fine"), ("../../evil.txt", b"pwned")]);
    let mut fs = MemFs::default();
    let result = extract(&extractor().mode(ExtractionMode::ValidateFirst), zip_file, &mut fs);

    assert!(matches!(result, Err(Error::PathEscape { .. })));
    assert!(
        !fs.files.contains_key("good.txt"),
        "ValidateFirst FAIL: good.txt was written before validation completed!"
    );
}

#[test]
fn test_streaming_keeps_earlier_files() {
    let zip_file = create_multi_file_zip(&[("good.txt", b"This is fine"), ("../../evil.txt", b"pwned")]);
    let mut fs = MemFs::default();
    let result = extract(&extractor(), zip_file, &mut fs);
    assert!(matches!(result, Err(Error::PathEscape { .. })));
    assert_eq!(fs.files.get("good.txt").unwrap(), b"This is fine");
}

// ============================================================================
// Overwrite Policy Tests
// ============================================================================

#[test]
fn test_overwrite_policy_error() {
    let mut fs = MemFs::default();
    extract(&extractor(), create_simple_zip("test.txt", b"original"), &mut fs).unwrap();

    let result = extract(&extractor(), create_simple_zip("test.txt", b"modified"), &mut fs);
    assert!(matches!(result, Err(Error::AlreadyExists { .. })));
    assert_eq!(fs.files.get("test.txt").unwrap(), b"original");
}

#[test]
fn test_overwrite_policy_skip() {
    let mut fs = MemFs::default();
    extract(&extractor(), create_simple_zip("test.txt", b"original"), &mut fs).unwrap();

    let report = extract(&extractor().overwrite(OverwritePolicy::Skip), create_simple_zip("test.txt", b"modified"), &mut fs)
        .unwrap();

    assert_eq!(report.entries_skipped, 1);
    assert_eq!(report.files_extracted, 0);
    assert_eq!(fs.files.get("test.txt").unwrap(), b"original");
}

#[test]
fn test_overwrite_policy_overwrite() {
    let mut fs = MemFs::default();
    extract(&extractor(), create_simple_zip("test.txt", b"original"), &mut fs).unwrap();

    let report = extract(&extractor().overwrite(OverwritePolicy::Overwrite), create_simple_zip("test.txt", b"modified"), &mut fs)
        .unwrap();

    assert_eq!(report.files_extracted, 1);
    assert_eq!(fs.files.get("test.txt").unwrap(), b"modified");
}

// ============================================================================
// Filter Tests
// ============================================================================

#[test]
fn test_filter_by_extension() {
    let zip = create_multi_file_zip(&[
        ("image.png", b"fake png data"),
        ("document.txt", b"text content"),
        ("photo.jpg", b"fake jpg data"),
        ("script.sh", b"#!/bin/bash"),
    ]);
    let mut fs = MemFs::default();
    let report = extract_into(&extractor(), zip, &mut fs, &|e| e.name.ends_with(".txt")).unwrap();

    assert_eq!(report.files_extracted, 1);
    assert_eq!(report.entries_skipped, 3);
    assert!(fs.files.contains_key("document.txt"));
    assert!(!fs.files.contains_key("image.png"));
    assert!(!fs.files.contains_key("photo.jpg"));
    assert!(!fs.files.contains_key("script.sh"));
}

#[test]
fn test_filter_by_size() {
    let zip = create_multi_file_zip(&[
        ("small.txt", b"tiny"),
        ("large.txt", b"this is a much larger file with more content"),
    ]);
    let mut fs = MemFs::default();
    let report = extract_into(&extractor(), zip, &mut fs, &|e| e.size < 10).unwrap();

    assert_eq!(report.files_extracted, 1);
    assert!(fs.files.contains_key("small.txt"));
    assert!(!fs.files.contains_key("large.txt"));
}

// ============================================================================
// Limits Tests
// ============================================================================

#[test]
fn test_single_file_size_limit() {
    let zip = create_simple_zip("big.txt", &[0u8; 500]);
    let mut fs = MemFs::default();
    let result = extract(&extractor().limits(Limits { max_single_file: 100, ..Default::default() }), zip, &mut fs);

    match result {
        Err(Error::FileTooLarge { entry, limit, size }) => {
            assert_eq!(entry, "big.txt");
            assert_eq!(limit, 100);
            assert_eq!(size, 500);
        }
        _ => panic!("Expected FileTooLarge error"),
    }
}

#[test]
fn test_file_count_limit() {
    let zip = create_multi_file_zip(&[
        ("file1.txt", b"1"),
        ("file2.txt", b"2"),
        ("file3.txt", b"3"),
        ("file4.txt", b"4"),
        ("file5.txt", b"5"),
    ]);
    let mut fs = MemFs::default();
    let result = extract(&extractor().limits(Limits { max_file_count: 3, ..Default::default() }), zip, &mut fs);

    assert!(matches!(result, Err(Error::FileCountExceeded { limit: 3, .. })));
    assert_eq!(fs.files.len(), 3);
}

#[test]
fn test_path_depth_limit() {
    let zip = create_simple_zip("a/b/c/d/e/f/g/deep.txt", b"deep");
    let mut fs = MemFs::default();
    let result = extract(&extractor().limits(Limits { max_path_depth: 3, ..Default::default() }), zip, &mut fs);

    match result {
        Err(Error::PathTooDeep { depth, limit, .. }) => {
            assert_eq!(limit, 3);
            assert!(depth > 3);
            assert_eq!(depth, 8);
        }
        _ => panic!("Expected PathTooDeep error"),
    }
}

// ============================================================================
// Directory Extraction Tests
// ============================================================================

#[test]
fn test_creates_directories() {
    let mut zip = zip::ZipWriter::new(Cursor::new(Vec::new()));
    let options: FileOptions<()> = FileOptions::default();
    zip.add_directory("mydir/", options.clone()).unwrap();
    zip.start_file("mydir/subdir/file.txt", options).unwrap();
    zip.write_all(b"nested content").unwrap();
    let data = zip.finish().unwrap().into_inner();

    let mut fs = MemFs::default();
    let report = extract(&extractor(), data, &mut fs).unwrap();

    assert_eq!(report.dirs_created, 1);
    assert_eq!(report.files_extracted, 1);
    assert!(fs.dirs.contains("mydir"));
    assert!(fs.files.contains_key("mydir/subdir/file.txt"));
}

#[test]
fn test_sanitize_filenames() {
    let zip = create_simple_zip("CON.txt", b"safe");
    let mut fs = MemFs::default();
    let result = extract(&extractor(), zip, &mut fs);

    match result {
        Err(Error::InvalidFilename { entry, reason }) => {
            assert_eq!(entry, "CON.txt");
            assert!(reason.contains("reserved"), "reason should mention reserved: {}", reason);
        }
        _ => panic!("Failed to reject reserved filename"),
    }
}

#[test]
fn test_symlink_overwrite_protection() {
    // jail/target.txt (sensitive), jail/link -> target.txt
    let mut fs = MemFs::default();
    fs.files.insert("target.txt".to_string(), b"sensitive".to_vec());
    fs.links.insert("link".to_string(), "target.txt".to_string());

    let zip = create_simple_zip("link", b"pwned");
    let report = extract(&extractor().overwrite(OverwritePolicy::Overwrite), zip, &mut fs)
        .unwrap();

    assert_eq!(report.files_extracted, 1);
    assert_eq!(fs.files.get("link").unwrap(), b"pwned");
    assert!(!fs.links.contains_key("link"));
    assert_eq!(fs.files.get("target.txt").unwrap(), b"sensitive");
}

// Helper to modify zip bytes to fake size
fn create_fake_size_zip(name: &str, content: &[u8], declared_size: u32) -> Vec<u8> {
    let mut zip = zip::ZipWriter::new(Cursor::new(Vec::new()));
    let options: FileOptions<()> = FileOptions::default()
        .compression_method(zip::CompressionMethod::Stored)
        .unix_permissions(0o644);
    zip.start_file(name, options).unwrap();
    zip.write_all(content).unwrap();
    let mut finalized = zip.finish().unwrap();
    finalized.seek(std::io::SeekFrom::Start(0)).unwrap();
    let mut buffer = finalized.into_inner();

    let size_bytes = declared_size.to_le_bytes();
    let lfh_sig = &[0x50, 0x4b, 0x03, 0x04];
    assert_eq!(&buffer[0..4], lfh_sig);
    buffer[22..26].copy_from_slice(&size_bytes);
    buffer[18..22].copy_from_slice(&size_bytes);
    let cd_sig = &[0x50, 0x4b, 0x01, 0x02];
    let pos = buffer.windows(4).position(|w| w == cd_sig).unwrap();
    buffer[pos + 20..pos + 24].copy_from_slice(&size_bytes);
    buffer[pos + 24..pos + 28].copy_from_slice(&size_bytes);
    buffer
}

#[test]
fn test_strict_size_enforcement() {
    // 10 bytes of content, 5 declared
    let zip_file = create_fake_size_zip("lie.txt", b"0123456789", 5);
    let mut fs = MemFs::default();
    let result = extract(&extractor(), zip_file, &mut fs);

    match result {
        Err(Error::FileTooLarge { limit, size, .. }) => {
            assert_eq!(limit, 5);
            assert_eq!(size, 6);
        }
        Err(Error::Io(e)) if e.to_string().contains("Invalid checksum") => {}
        _ => panic!("Failed to enforce declared size: {:?}", result),
    }
    assert!(fs.files.values().all(|v| v.len() <= 5));
}

// ============================================================================
// Advanced Attack Vector Tests
// ============================================================================

#[test]
fn test_absolute_path_rejection() {
    let zip = create_simple_zip("/tmp/evil.txt", b"evil");
    let mut fs = MemFs::default();
    let result = extract(&extractor(), zip, &mut fs);

    match result {
        Err(Error::PathEscape { .. }) => {}
        Err(Error::InvalidFilename { .. }) => {}
        Ok(_) => {
            assert!(!fs.files.contains_key("/tmp/evil.txt"), "Wrote to absolute path outside jail!");
            let inside = fs.files.contains_key("tmp/evil.txt") || fs.files.contains_key("evil.txt");
            assert!(inside, "File should be inside jail");
        }
        Err(e) => panic!("Unexpected error: {:?}", e),
    }
}

#[test]
fn test_backslash_rejection() {
    let zip = create_simple_zip("folder\\file.txt", b"data");
    let mut fs = MemFs::default();
    let result = extract(&extractor(), zip, &mut fs);

    match result {
        Err(Error::InvalidFilename { reason, .. }) => {
            assert!(reason.contains("backslash"), "Should mention backslash: {}", reason);
        }
        _ => panic!("Should reject backslash in filename: {:?}", result),
    }
}

#[test]
fn test_null_byte_rejection() {
    let zip = create_simple_zip("harmless.txt\0.exe", b"malware");
    let mut fs = MemFs::default();
    let result = extract(&extractor(), zip, &mut fs);

    match result {
        Err(Error::InvalidFilename { reason, .. }) => {
            assert!(reason.contains("control"), "Should mention control chars: {}", reason);
        }
        _ => panic!("Should reject null byte in filename: {:?}", result),
    }
}

#[test]
fn test_empty_filename_rejection() {
    let zip = create_simple_zip("", b"data");
    let mut fs = MemFs::default();
    let result = extract(&extractor(), zip, &mut fs);

    match result {
        Err(Error::InvalidFilename { reason, .. }) => {
            assert!(reason.contains("empty"), "Should mention empty: {}", reason);
        }
        _ => panic!("Should reject empty filename: {:?}", result),
    }
}

#[test]
fn test_symlink_then_file_in_same_archive() {
    let mut fs = MemFs::default();
    fs.files.insert("target.txt".to_string(), b"original".to_vec());
    fs.links.insert("link".to_string(), "target.txt".to_string());

    let zip = create_simple_zip("link", b"overwritten");
    let result = extract(&extractor().overwrite(OverwritePolicy::Overwrite), zip, &mut fs);

    assert!(result.is_ok(), "Should succeed: {:?}", result);
    assert!(!fs.links.contains_key("link"), "Should no longer be a symlink");
    assert!(fs.files.contains_key("link"), "Should be a regular file");
    assert_eq!(fs.files.get("link").unwrap(), b"overwritten", "File should have new content");
    assert_eq!(fs.files.get("target.txt").unwrap(), b"original", "Original target should be unchanged");
}

#[test]
fn test_mixed_slash_traversal() {
    let zip = create_simple_zip("foo\\..\\bar.txt", b"data");
    let mut fs = MemFs::default();
    let result = extract(&extractor(), zip, &mut fs);

    assert!(
        matches!(result, Err(Error::InvalidFilename { .. })),
        "Should reject mixed slashes: {:?}",
        result
    );
}

#[test]
fn test_empty_archive_reports_zero() {
    let data = zip::ZipWriter::new(Cursor::new(Vec::new())).finish().unwrap().into_inner();
    let mut fs = MemFs::default();
    let report = extract(&extractor(), data, &mut fs).unwrap();
    assert_eq!(report, Report { files_extracted: 0, dirs_created: 0, bytes_written: 0, entries_skipped: 0 });
}

#[test]
fn test_round_trip_tree() {
    let tree: Vec<(&str, &[u8])> = vec![
        ("readme.md", b"# readme"),
        ("src/main.rs", b"fn main() {}"),
        ("src/lib/util.rs", b"pub fn f() -> u8 { 7 }"),
        ("data/empty.bin", b""),
    ];
    let zip = create_multi_file_zip(&tree);
    let mut fs = MemFs::default();
    let report = extract(&extractor(), zip, &mut fs).unwrap();
    assert_eq!(report.files_extracted, 4);
    assert_eq!(report.bytes_written, tree.iter().map(|(_, c)| c.len() as u64).sum::<u64>());
    for (name, content) in tree {
        assert_eq!(fs.files.get(name).unwrap().as_slice(), content);
    }
}

#[test]
fn test_zip_modes_are_masked() {
    let mut zip = zip::ZipWriter::new(Cursor::new(Vec::new()));
    let options: FileOptions<()> = FileOptions::default().unix_permissions(0o4755);
    zip.start_file("tool", options).unwrap();
    zip.write_all(b"#!").unwrap();
    let data = zip.finish().unwrap().into_inner();
    let mut fs = MemFs::default();
    extract(&extractor(), data, &mut fs).unwrap();
    let mode = *fs.modes.get("tool").unwrap();
    assert_eq!(mode & 0o7000, 0);
    assert_eq!(mode, 0o755);
}

#[test]
fn test_encrypted_entry_rejected() {
    let mut zip = zip::ZipWriter::new(Cursor::new(Vec::new()));
    let options: FileOptions<()> = FileOptions::default().with_deprecated_encryption(b"secret");
    zip.start_file("secret.txt", options).unwrap();
    zip.write_all(b"hidden").unwrap();
    let data = zip.finish().unwrap().into_inner();
    let mut fs = MemFs::default();
    match extract(&extractor(), data.clone(), &mut fs) {
        Err(Error::EncryptedEntry { entry }) => assert_eq!(entry, "secret.txt"),
        other => panic!("expected EncryptedEntry, got {:?}", other),
    }
    assert!(fs.files.is_empty());
    assert!(matches!(safe_unzip::verify_bytes(data), Err(Error::EncryptedEntry { .. })));
}
