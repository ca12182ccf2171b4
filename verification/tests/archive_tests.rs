use std::io::Write;

use filescanner::archive::{analyze_zip, summarize_archive, EntryRecord, ZipEntryMeta};
use filescanner::types::Severity;

fn zip_of(files: &[(&str, &[u8])]) -> Vec<u8> {
    let mut w = zip::ZipWriter::new(std::io::Cursor::new(Vec::new()));
    let options = zip::write::SimpleFileOptions::default().compression_method(zip::CompressionMethod::Stored);
    for (name, content) in files {
        w.start_file(*name, options).unwrap();
        w.write_all(content).unwrap();
    }
    w.finish().unwrap().into_inner()
}

fn meta(name: &str, size: u64, is_dir: bool, encrypted: bool) -> ZipEntryMeta {
    ZipEntryMeta { name: name.to_string(), size, compressed_size: size / 2, is_dir, encrypted }
}

#[test]
fn not_a_zip() {
    assert!(analyze_zip(b"plain text", "ZIP").is_none());
    assert!(analyze_zip(b"", "ZIP").is_none());
}

#[test]
fn clean_archive() {
    let data = zip_of(&[("readme.txt", b"hello"), ("img/photo.png", b"\x89PNG")]);
    let (info, iocs) = analyze_zip(&data, "ZIP").unwrap();
    assert_eq!(info.archive_type, "ZIP");
    assert_eq!(info.total_entries, 2);
    assert_eq!(info.entries.len(), 2);
    assert_eq!(info.entries[0].name, "readme.txt");
    assert_eq!(info.entries[0].size, 5);
    assert!(!info.entries[0].is_executable);
    assert!(!info.has_nested_executable);
    assert!(!info.has_double_extension);
    assert!(!info.has_encrypted_entries);
    assert!(!info.has_vba_macros);
    assert!(iocs.is_empty());
}

#[test]
fn dropper_archive() {
    let data = zip_of(&[
        ("invoice.pdf.exe", b"MZ"),
        ("readme.txt", b"hi"),
        ("word/vbaProject.bin", b"Sub AutoOpen()\r\n  Shell \"calc\"\r\nEnd Sub"),
    ]);
    let (info, iocs) = analyze_zip(&data, "Office OOXML").unwrap();
    assert_eq!(info.archive_type, "Office OOXML");
    assert_eq!(info.total_entries, 3);
    assert_eq!(info.entries.len(), 3);
    assert!(info.entries[0].is_executable);
    assert_eq!(info.entries[2].name, "word/vbaProject.bin");
    assert!(!info.entries[2].is_executable);
    assert!(info.has_nested_executable);
    assert!(info.has_double_extension);
    assert!(info.has_vba_macros);
    assert_eq!(info.vba_keywords, vec!["AutoOpen".to_string(), "Shell".to_string()]);
    let values: Vec<&str> = iocs.iter().map(|i| i.value.as_str()).collect();
    assert_eq!(values, vec!["invoice.pdf.exe", "Exécutable imbriqué", "AutoOpen, Shell"]);
    assert_eq!(iocs[0].severity, Severity::Critical);
    assert_eq!(iocs[0].description, "Double extension trompeuse dans l'archive");
    assert_eq!(iocs[1].severity, Severity::High);
    assert_eq!(iocs[2].ioc_type, "Macro VBA");
    assert_eq!(iocs[2].severity, Severity::Critical);
    assert_eq!(iocs[2].description, "Document Office avec macros VBA détectées");
}

#[test]
fn summary_of_members() {
    let recs = vec![
        EntryRecord { meta: meta("Photo.JPG.scr", 100, false, false), content: None },
        EntryRecord { meta: meta("bin/", 0, true, false), content: None },
        EntryRecord { meta: meta("secret.dat", 40, false, true), content: None },
        EntryRecord { meta: meta("xl/vbaProject.bin", 10, false, false), content: Some(b"Private Sub Workbook_Open".to_vec()) },
    ];
    let (info, iocs) = summarize_archive("ZIP", 7, &recs);
    assert_eq!(info.total_entries, 7);
    assert_eq!(info.entries.len(), 4);
    assert!(info.entries[0].is_executable);
    assert!(!info.entries[1].is_executable);
    assert!(info.entries[2].is_encrypted);
    assert_eq!(info.entries[3].size, 10);
    assert!(!info.entries[3].is_encrypted);
    assert!(info.has_double_extension);
    assert!(info.has_encrypted_entries);
    assert!(info.has_vba_macros);
    assert_eq!(info.vba_keywords, vec!["Workbook_Open".to_string()]);
    let values: Vec<&str> = iocs.iter().map(|i| i.value.as_str()).collect();
    assert_eq!(values, vec!["Photo.JPG.scr", "Exécutable imbriqué", "Entrées chiffrées", "Workbook_Open"]);
    assert_eq!(iocs[2].severity, Severity::Medium);
    assert_eq!(iocs[3].severity, Severity::High);
}

#[test]
fn macro_project_without_readable_content() {
    let recs = vec![EntryRecord { meta: meta("word/vbaProject.bin", 10, false, false), content: None }];
    let (info, iocs) = summarize_archive("Office OOXML", 1, &recs);
    assert!(info.has_vba_macros);
    assert!(info.vba_keywords.is_empty());
    // The ".bin" extension also counts as a nested executable.
    assert!(info.has_nested_executable);
    assert_eq!(iocs.len(), 2);
    assert_eq!(iocs[1].value, "vbaProject.bin");
    assert_eq!(iocs[1].severity, Severity::High);
}

#[test]
fn listing_stops_at_one_hundred() {
    let recs: Vec<EntryRecord> = (0..120)
        .map(|i| EntryRecord { meta: meta(&format!("f{i}.txt"), 1, false, false), content: None })
        .collect();
    let (info, iocs) = summarize_archive("ZIP", 120, &recs);
    assert_eq!(info.entries.len(), 100);
    assert_eq!(info.entries[99].name, "f99.txt");
    assert!(iocs.is_empty());
}
