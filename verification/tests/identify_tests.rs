use filescanner::hash;
use filescanner::mime::{self, FileCategory};

fn elf_header() -> Vec<u8> {
    let mut v = vec![0x7F, b'E', b'L', b'F', 2, 1, 1, 0];
    v.extend_from_slice(&[0; 8]);
    v.extend_from_slice(&2u16.to_le_bytes());
    v.extend_from_slice(&0x3Eu16.to_le_bytes());
    v.extend_from_slice(&1u32.to_le_bytes());
    v.extend_from_slice(&0x401000u64.to_le_bytes());
    v.extend_from_slice(&0u64.to_le_bytes());
    v.extend_from_slice(&0u64.to_le_bytes());
    v.extend_from_slice(&0u32.to_le_bytes());
    v.extend_from_slice(&64u16.to_le_bytes());
    v.extend_from_slice(&56u16.to_le_bytes());
    v.extend_from_slice(&0u16.to_le_bytes());
    v.extend_from_slice(&64u16.to_le_bytes());
    v.extend_from_slice(&0u16.to_le_bytes());
    v.extend_from_slice(&0u16.to_le_bytes());
    v
}

#[test]
fn hashes_of_abc() {
    let h = hash::compute(b"abc");
    assert_eq!(h.md5, "900150983cd24fb0d6963f7d28e17f72");
    assert_eq!(h.sha1, "a9993e364706816aba3e25717850c26c9cd0d89d");
    assert_eq!(h.sha256, "ba7816bf8f01cfea414140de5dae2223b00361a396177a9cb410ff61f20015ad");
    assert_eq!(
        h.sha512,
        "ddaf35a193617abacc417349ae20413112e6fa4e89a97ea20a9eeee64b55d39a2192992a274fc1a836ba3c23a3feebbd454d4423643ce80e2a9ac94fa54ca49f"
    );
}

#[test]
fn hashes_of_empty_input() {
    let h = hash::compute(b"");
    assert_eq!(h.md5, "d41d8cd98f00b204e9800998ecf8427e");
    assert_eq!(h.sha1, "da39a3ee5e6b4b0d3255bfef95601890afd80709");
    assert_eq!(h.sha256, "e3b0c44298fc1c149afbf4c8996fb92427ae41e4649b934ca495991b7852b855");
    assert_eq!(h.sha512.len(), 128);
    assert!(h.sha512.chars().all(|c| c.is_ascii_digit() || ('a'..='f').contains(&c)));
}

#[test]
fn detect_by_magic_bytes() {
    assert_eq!(mime::detect(b"MZ\x90\x00\x03\x00", "a.exe"), "application/vnd.microsoft.portable-executable");
    assert_eq!(mime::detect(&elf_header(), "a.out"), "application/x-executable");
    assert_eq!(mime::detect(b"\x7FELF\x02\x01", "tiny"), "application/x-executable");
    assert_eq!(mime::detect(b"%PDF-1.7\n", "doc.pdf"), "application/pdf");
    assert_eq!(mime::detect(b"hello world", "notes.txt"), "text/plain");
    assert_eq!(mime::detect(&[0xC3, 0x28, 0x00], "blob"), "application/octet-stream");
}

#[test]
fn detect_shortcut_needs_extension() {
    let data = [0x4C, 0x00, 0x00, 0x00, 0x01, 0x14, 0x02, 0x00, 0xFF, 0xFE];
    assert_eq!(mime::detect(&data, "Invoice.LNK"), "application/x-ms-shortcut");
    assert_eq!(mime::detect(&data, "invoice.dat"), "application/octet-stream");
}

#[test]
fn category_names() {
    assert_eq!(FileCategory::Pe.as_str(), "Exécutable Windows (PE)");
    assert_eq!(FileCategory::Elf.as_str(), "Exécutable Linux (ELF)");
    assert_eq!(FileCategory::MachO.as_str(), "Exécutable macOS (Mach-O)");
    assert_eq!(FileCategory::Script.as_str(), "Script");
    assert_eq!(FileCategory::Archive.as_str(), "Archive");
    assert_eq!(FileCategory::OfficeDoc.as_str(), "Document Office");
    assert_eq!(FileCategory::Pdf.as_str(), "PDF");
    assert_eq!(FileCategory::Lnk.as_str(), "Raccourci Windows");
    assert_eq!(FileCategory::Document.as_str(), "Document");
    assert_eq!(FileCategory::Other.as_str(), "Autre");
}

#[test]
fn categorize_executables_first() {
    assert_eq!(mime::categorize("text/plain", b"MZ this is not a script", "run.bat"), FileCategory::Pe);
    assert_eq!(mime::categorize("application/x-dosexec", b"", "x"), FileCategory::Pe);
    assert_eq!(mime::categorize("text/plain", b"\x7FELF", "x.sh"), FileCategory::Elf);
    assert_eq!(mime::categorize("application/octet-stream", &[0xCA, 0xFE, 0xBA, 0xBE], "x"), FileCategory::MachO);
    assert_eq!(mime::categorize("application/octet-stream", &[0xCF, 0xFA, 0xED, 0xFE], "x"), FileCategory::MachO);
}

#[test]
fn categorize_documents_and_scripts() {
    assert_eq!(mime::categorize("application/pdf", b"abc", "x.bin"), FileCategory::Pdf);
    assert_eq!(mime::categorize("text/plain", b"%PDF", "x"), FileCategory::Pdf);
    assert_eq!(mime::categorize("application/octet-stream", &[0x4C, 0, 0, 0], "a.LnK"), FileCategory::Lnk);
    assert_eq!(mime::categorize("application/zip", b"PK\x03\x04rest", "report.DOCM"), FileCategory::OfficeDoc);
    assert_eq!(mime::categorize("text/plain", b"hello", "report.docx"), FileCategory::Other);
    assert_eq!(mime::categorize("text/plain", b"Write-Host hi", "run.PS1"), FileCategory::Script);
    assert_eq!(mime::categorize("text/plain", b"#!/bin/sh\necho", "noext"), FileCategory::Script);
    assert_eq!(mime::categorize("application/zip", b"PK\x03\x04", "a.zip"), FileCategory::Archive);
    assert_eq!(mime::categorize("application/octet-stream", b"xx", "disk.iso"), FileCategory::Archive);
    assert_eq!(mime::categorize("application/vnd.ms-excel", b"xx", "book"), FileCategory::Document);
    assert_eq!(mime::categorize("application/octet-stream", b"xx", "data"), FileCategory::Other);
}

#[test]
fn magic_bytes_beat_the_name() {
    // An executable disguised with a script or document name is still an executable.
    assert_eq!(mime::categorize("text/plain", b"MZ", "invoice.pdf"), FileCategory::Pe);
    assert_eq!(mime::categorize("text/plain", b"\x7FELF....", "notes.txt"), FileCategory::Elf);
}

#[test]
fn detect_from_recognised_type_and_lower_name() {
    assert_eq!(mime::detect_from(Some("image/png"), b"MZ", "a.exe"), "image/png");
    assert_eq!(mime::detect_from(None, b"MZ\x90", "a.exe"), "application/x-dosexec");
    assert_eq!(mime::detect_from(None, &[0x4C, 0, 0, 0, 0xFF], "invoice.lnk"), "application/x-ms-shortcut");
    assert_eq!(mime::detect_from(None, &[0x4C, 0, 0, 0, 0xFF], "Invoice.LNK"), "application/octet-stream");
    assert_eq!(mime::detect_from(None, b"plain words", "x"), "text/plain");
}

#[test]
fn categorize_from_recognised_type_and_extension() {
    assert_eq!(mime::categorize_from("text/plain", b"echo hi", "bat", None), FileCategory::Script);
    assert_eq!(
        mime::categorize_from("text/plain", b"echo hi", "bat", Some("application/x-mach-binary")),
        FileCategory::Other
    );
    assert_eq!(mime::categorize_from("text/plain", b"echo hi", "BAT", None), FileCategory::Other);
    assert_eq!(mime::categorize_from("application/octet-stream", &[0x4C, 0, 0, 0], "lnk", None), FileCategory::Lnk);
    assert_eq!(mime::categorize_from("application/zip", b"PK\x03\x04", "xlsx", None), FileCategory::OfficeDoc);
}
