use filescanner::binary::{
    analyze_binary, detect_packer, filter_suspicious, mach_pick_exec, parse, section_range, ArchKind, BinaryFormat, BinaryLayout,
    RawSection,
};
use filescanner::clamav::{ClamavDb, HashType};
use filescanner::mime::FileCategory;
use filescanner::pipeline::{finish_scan, plan_scan, reputation_lookup_wanted, ScanContext};
use filescanner::types::{EntropyLevel, ScanError, Severity, Verdict, VtResult};
use filescanner::yara::YaraEngine;

fn elf_with(tail: &[u8]) -> Vec<u8> {
    let mut v = vec![0x7F, b'E', b'L', b'F', 2, 1, 1, 0];
    v.extend_from_slice(&[0; 8]);
    v.extend_from_slice(&2u16.to_le_bytes());
    v.extend_from_slice(&0x3Eu16.to_le_bytes());
    v.extend_from_slice(&1u32.to_le_bytes());
    v.extend_from_slice(&0x401000u64.to_le_bytes());
    v.extend_from_slice(&0u64.to_le_bytes());
    v.extend_from_slice(&0u64.to_le_bytes());
    v.extend_from_slice(&0u32.to_le_bytes());
    v.extend_from_slice(&64u16.to_le_bytes());
    v.extend_from_slice(&56u16.to_le_bytes());
    v.extend_from_slice(&0u16.to_le_bytes());
    v.extend_from_slice(&64u16.to_le_bytes());
    v.extend_from_slice(&0u16.to_le_bytes());
    v.extend_from_slice(&0u16.to_le_bytes());
    v.extend_from_slice(tail);
    v
}

fn pe_with(section_data: &[u8]) -> Vec<u8> {
    let mut v = vec![0u8; 0x40];
    v[0] = b'M';
    v[1] = b'Z';
    v[0x3C..0x40].copy_from_slice(&0x40u32.to_le_bytes());
    v.extend_from_slice(b"PE\0\0");
    // COFF header: i386, one section, 224-byte optional header, executable image.
    v.extend_from_slice(&0x14Cu16.to_le_bytes());
    v.extend_from_slice(&1u16.to_le_bytes());
    v.extend_from_slice(&[0; 12]);
    v.extend_from_slice(&224u16.to_le_bytes());
    v.extend_from_slice(&0x0102u16.to_le_bytes());
    // Optional header (PE32): standard fields.
    v.extend_from_slice(&0x10Bu16.to_le_bytes());
    v.extend_from_slice(&[0, 0]);
    v.extend_from_slice(&0x200u32.to_le_bytes());
    v.extend_from_slice(&0u32.to_le_bytes());
    v.extend_from_slice(&0u32.to_le_bytes());
    v.extend_from_slice(&0x1000u32.to_le_bytes());
    v.extend_from_slice(&0x1000u32.to_le_bytes());
    v.extend_from_slice(&0u32.to_le_bytes());
    // Windows fields.
    v.extend_from_slice(&0x400000u32.to_le_bytes());
    v.extend_from_slice(&0x1000u32.to_le_bytes());
    v.extend_from_slice(&0x200u32.to_le_bytes());
    v.extend_from_slice(&4u16.to_le_bytes());
    v.extend_from_slice(&0u16.to_le_bytes());
    v.extend_from_slice(&0u16.to_le_bytes());
    v.extend_from_slice(&0u16.to_le_bytes());
    v.extend_from_slice(&4u16.to_le_bytes());
    v.extend_from_slice(&0u16.to_le_bytes());
    v.extend_from_slice(&0u32.to_le_bytes());
    v.extend_from_slice(&0x2000u32.to_le_bytes());
    v.extend_from_slice(&0x200u32.to_le_bytes());
    v.extend_from_slice(&0u32.to_le_bytes());
    v.extend_from_slice(&2u16.to_le_bytes());
    v.extend_from_slice(&0u16.to_le_bytes());
    v.extend_from_slice(&0x100000u32.to_le_bytes());
    v.extend_from_slice(&0x1000u32.to_le_bytes());
    v.extend_from_slice(&0x100000u32.to_le_bytes());
    v.extend_from_slice(&0x1000u32.to_le_bytes());
    v.extend_from_slice(&0u32.to_le_bytes());
    v.extend_from_slice(&16u32.to_le_bytes());
    v.extend_from_slice(&[0; 128]);
    // One section header.
    v.extend_from_slice(b".text\0\0\0");
    v.extend_from_slice(&0x10u32.to_le_bytes());
    v.extend_from_slice(&0x1000u32.to_le_bytes());
    v.extend_from_slice(&0x200u32.to_le_bytes());
    v.extend_from_slice(&0x200u32.to_le_bytes());
    v.extend_from_slice(&[0; 12]);
    v.extend_from_slice(&0x60000020u32.to_le_bytes());
    v.resize(0x200, 0);
    let mut body = section_data.to_vec();
    body.resize(0x200, 0);
    v.extend_from_slice(&body);
    v
}

fn no_context() -> ScanContext<'static> {
    ScanContext { clamav: None, vt_api_key: "" }
}

#[test]
fn unreadable_bytes_are_not_an_executable() {
    match parse(b"hello world, not an executable at all") {
        Err(ScanError::BinaryParseError(_)) => {}
        _ => panic!("expected a parse error"),
    }
}

#[test]
fn minimal_elf_layout() {
    let data = elf_with(b"UPX0");
    let layout = parse(&data).expect("a valid ELF header");
    assert_eq!(layout.format, BinaryFormat::Elf);
    assert!(layout.is_64bit);
    assert!(!layout.is_signed);
    assert_eq!(layout.entry_point, 0x401000);
    assert!(layout.sections.is_empty());
    assert!(layout.imports.is_empty());
    assert!(layout.stripped);
    let (info, iocs) = analyze_binary(&layout, &data, EntropyLevel::Normal, "2.10");
    assert_eq!(info.format, "ELF");
    assert!(info.is_packed, "the UPX signature marks it packed");
    let values: Vec<&str> = iocs.iter().map(|i| i.value.as_str()).collect();
    assert_eq!(values, vec!["Binaire strippé", "UPX"]);
    assert_eq!(iocs[1].ioc_type, "Packer");
    assert_eq!(iocs[1].description, "Signature du packer UPX détectée");
}

#[test]
fn minimal_pe_layout() {
    let data = pe_with(b"UPX0 packed code");
    let layout = parse(&data).expect("a valid PE");
    assert_eq!(layout.format, BinaryFormat::Pe);
    assert!(!layout.is_64bit);
    assert!(!layout.is_signed);
    assert!(!layout.stripped);
    assert_eq!(layout.entry_point, 0x1000);
    assert!(layout.imports.is_empty());
    assert_eq!(layout.sections.len(), 1);
    assert_eq!(layout.sections[0].name, ".text");
    assert_eq!(layout.sections[0].virtual_size, 0x10);
    assert_eq!(layout.sections[0].raw_size, 0x200);
    assert_eq!((layout.sections[0].data_start, layout.sections[0].data_end), (0x200, 0x400));
    let (info, iocs) = analyze_binary(&layout, &data, EntropyLevel::Normal, "1.00");
    assert_eq!(info.format, "PE");
    assert!(info.is_packed);
    let values: Vec<&str> = iocs.iter().map(|i| i.value.as_str()).collect();
    assert_eq!(values, vec!["Non signé", "UPX"]);
    let plan = plan_scan(&data, "setup.exe");
    assert_eq!(plan.mime_type, "application/vnd.microsoft.portable-executable");
    assert_eq!(plan.category, FileCategory::Pe);
}

#[test]
fn windows_layout_analysis() {
    let layout = BinaryLayout {
        format: BinaryFormat::Pe,
        is_64bit: false,
        is_signed: false,
        sections: vec![RawSection {
            name: ".text".to_string(),
            virtual_size: 4096,
            raw_size: 1024,
            data_start: 0,
            data_end: 2,
        }],
        imports: vec!["CreateRemoteThread".to_string(), "printf".to_string(), "virtualalloc".to_string()],
        entry_point: 0x1000,
        stripped: false,
    };
    let (info, iocs) = analyze_binary(&layout, b"MZ", EntropyLevel::Extreme, "7.95");
    assert_eq!(info.format, "PE");
    assert_eq!(info.sections.len(), 1);
    assert_eq!(info.sections[0].name, ".text");
    assert_eq!(info.sections[0].virtual_size, 4096);
    assert_eq!(info.suspicious_imports, vec!["CreateRemoteThread".to_string(), "virtualalloc".to_string()]);
    assert_eq!(info.entropy_level, EntropyLevel::Extreme);
    assert!(info.is_packed);
    let values: Vec<&str> = iocs.iter().map(|i| i.value.as_str()).collect();
    assert_eq!(values, vec!["7.95", "CreateRemoteThread", "virtualalloc", "Non signé"]);
    assert_eq!(iocs[0].severity, Severity::High);
    assert_eq!(iocs[1].severity, Severity::Critical);
    assert_eq!(iocs[1].description, "Fonction API sensible : CreateRemoteThread");
    assert_eq!(iocs[2].severity, Severity::Low);
    assert_eq!(iocs[3].ioc_type, "Signature");
}

#[test]
fn packer_table_order_and_ranges() {
    assert_eq!(detect_packer(b"..MPRESS1..UPX0.."), Some("UPX"));
    assert_eq!(detect_packer(b"..MPRESS1.."), Some("MPRESS"));
    assert_eq!(detect_packer(b"plain"), None);
    assert_eq!(section_range(10, 5, true, 100), (10, 15));
    assert_eq!(section_range(10, 500, true, 100), (10, 100));
    assert_eq!(section_range(200, 5, true, 100), (0, 0));
    assert_eq!(section_range(10, 5, false, 100), (0, 0));
    let imports = vec!["WriteProcessMemory".to_string(), "puts".to_string(), "my_ptrace_hook".to_string()];
    assert_eq!(
        filter_suspicious(&imports, &["writeprocessmemory", "ptrace"]),
        vec!["WriteProcessMemory".to_string(), "my_ptrace_hook".to_string()]
    );
}

#[test]
fn pdf_scan_end_to_end() {
    let data = b"%PDF-1.4\n/JavaScript (x)\n/OpenAction 1 0 R\n";
    let plan = plan_scan(data, "doc.pdf");
    assert_eq!(plan.mime_type, "application/pdf");
    assert_eq!(plan.category, FileCategory::Pdf);
    assert!(plan.binary.is_none());
    let engine = YaraEngine::new();
    let r = finish_scan(data, "doc.pdf", plan, None, &no_context(), &engine, None);
    assert_eq!(r.file_name, "doc.pdf");
    assert_eq!(r.file_size, data.len() as u64);
    assert_eq!(r.category, "PDF");
    assert!(r.pdf_info.is_some());
    assert!(r.binary_info.is_none());
    assert_eq!(r.ioc_list.len(), 2);
    assert_eq!(r.verdict_score, 85);
    assert_eq!(r.verdict, Verdict::Malicious);
}

#[test]
fn signature_hit_end_to_end() {
    let mut db = ClamavDb::new("db");
    db.parse_hash_lines(b"5d41402abc4b2a76b9719d911017c592:5:Test.Hello\n", HashType::Md5);
    let ctx = ScanContext { clamav: Some(&db), vt_api_key: "" };
    let plan = plan_scan(b"hello", "hello.txt");
    assert_eq!(plan.hashes.md5, "5d41402abc4b2a76b9719d911017c592");
    assert_eq!(plan.category, FileCategory::Other);
    let r = finish_scan(b"hello", "hello.txt", plan, None, &ctx, &YaraEngine::new(), None);
    let hit = r.clamav.as_ref().expect("the digest is known");
    assert_eq!(hit.malware_name, "Test.Hello");
    assert_eq!(hit.database, "ClamAV/MD5");
    let last = r.ioc_list.last().unwrap();
    assert_eq!(last.ioc_type, "ClamAV");
    assert_eq!(last.value, "Test.Hello");
    assert_eq!(last.severity, Severity::Critical);
    assert_eq!(last.description, "Détecté par ClamAV/MD5 (base ClamAV)");
    assert_eq!(r.verdict_score, 95);
    assert_eq!(r.verdict, Verdict::Malicious);
}

#[test]
fn reputation_reply_end_to_end() {
    let vt = VtResult {
        positives: 3,
        total: 70,
        permalink: "p".to_string(),
        scan_date: String::new(),
        detection_names: vec!["X".to_string()],
    };
    let keyed = ScanContext { clamav: None, vt_api_key: "key" };
    assert!(reputation_lookup_wanted(&keyed));
    assert!(!reputation_lookup_wanted(&no_context()));
    let plan = plan_scan(b"hello", "hello.txt");
    let r = finish_scan(b"hello", "hello.txt", plan, None, &keyed, &YaraEngine::new(), Some(vt.clone()));
    assert_eq!(r.virustotal.as_ref().unwrap().positives, 3);
    assert_eq!(r.verdict_score, 85);
    assert_eq!(r.verdict, Verdict::Malicious);
    // Without a key the service is not used, and a reply is not kept.
    let plan = plan_scan(b"hello", "hello.txt");
    let r = finish_scan(b"hello", "hello.txt", plan, None, &no_context(), &YaraEngine::new(), Some(vt));
    assert!(r.virustotal.is_none());
    assert_eq!(r.verdict, Verdict::Safe);
}

#[test]
fn executable_scan_end_to_end() {
    let data = elf_with(b"UPX0");
    let plan = plan_scan(&data, "a.out");
    assert_eq!(plan.category, FileCategory::Elf);
    assert!(matches!(plan.binary, Some(Ok(_))));
    let r = finish_scan(
        &data,
        "a.out",
        plan,
        Some((EntropyLevel::Normal, "1.50".to_string())),
        &no_context(),
        &YaraEngine::new(),
        None,
    );
    assert_eq!(r.binary_info.as_ref().unwrap().format, "ELF");
    assert_eq!(r.yara_matches.len(), 1);
    assert_eq!(r.yara_matches[0].rule_name, "UPX_Packer");
    assert!(r.ioc_list.iter().any(|i| i.ioc_type == "Packer" && i.value == "UPX"));
    assert_eq!(r.verdict_score, 10);
    assert_eq!(r.verdict, Verdict::Safe);
}

#[test]
fn plain_text_is_safe() {
    let data = b"Dear team, the meeting is moved to Friday.";
    let plan = plan_scan(data, "note.txt");
    assert_eq!(plan.mime_type, "text/plain");
    let r = finish_scan(data, "note.txt", plan, None, &no_context(), &YaraEngine::new(), None);
    assert_eq!(r.category, "Autre");
    assert!(r.ioc_list.is_empty());
    assert!(r.yara_matches.is_empty());
    assert_eq!(r.verdict_score, 0);
    assert_eq!(r.verdict, Verdict::Safe);
}

#[test]
fn universal_binary_takes_its_first_architecture() {
    assert_eq!(mach_pick_exec(&None), Some(None));
    assert_eq!(mach_pick_exec(&Some(vec![ArchKind::MachO, ArchKind::Archive])), Some(Some(0)));
    assert_eq!(mach_pick_exec(&Some(vec![ArchKind::Archive, ArchKind::MachO])), None);
    assert_eq!(mach_pick_exec(&Some(vec![ArchKind::Unreadable])), None);
    assert_eq!(mach_pick_exec(&Some(vec![])), None);
}
