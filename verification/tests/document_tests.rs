use filescanner::lnk;
use filescanner::pdf;
use filescanner::types::Severity;

#[test]
fn pdf_markers_and_indicators() {
    let (info, iocs) = pdf::analyze(b"%PDF-1.4\n/JavaScript (app.alert(1))\n/OpenAction 3 0 R\n/Launch /F (cmd.exe)");
    assert!(info.has_javascript);
    assert!(info.has_open_action);
    assert!(info.has_launch_action);
    assert!(!info.has_embedded_files);
    assert!(!info.has_acroform);
    assert_eq!(info.suspicious_count, 3);
    let values: Vec<&str> = iocs.iter().map(|i| i.value.as_str()).collect();
    assert_eq!(values, vec!["/JavaScript", "/OpenAction", "/Launch"]);
    assert_eq!(iocs[0].severity, Severity::High);
    assert_eq!(iocs[1].severity, Severity::Critical);
    assert_eq!(iocs[2].severity, Severity::Critical);
    assert_eq!(iocs[0].ioc_type, "PDF");
    assert_eq!(iocs[0].description, "Code JavaScript embarqué dans le PDF");
    assert_eq!(iocs[1].description, "Action automatique à l'ouverture du document");
}

#[test]
fn pdf_short_forms_and_forms() {
    let (info, iocs) = pdf::analyze(b"%PDF /JS /AA /Filespec /AcroForm");
    assert!(info.has_javascript);
    assert!(info.has_open_action);
    assert!(info.has_embedded_files);
    assert!(!info.has_acroform, "a form without XFA is not flagged");
    assert_eq!(info.suspicious_count, 3);
    assert_eq!(iocs.len(), 3);
    assert_eq!(iocs[2].value, "/EmbeddedFile");
    assert_eq!(iocs[2].severity, Severity::Medium);

    let (info, iocs) = pdf::analyze(b"%PDF /AA /AcroForm /XFA");
    assert!(!info.has_javascript);
    assert!(info.has_open_action);
    assert!(info.has_acroform);
    assert_eq!(info.suspicious_count, 2);
    assert_eq!(iocs[0].severity, Severity::Medium, "open action without script is medium");
    assert_eq!(iocs[1].value, "/AcroForm + /XFA");
    assert_eq!(iocs[1].description, "Formulaire XFA — vecteur d'exploit connu");
}

#[test]
fn pdf_clean_document() {
    let (info, iocs) = pdf::analyze(b"%PDF-1.7 plain text only");
    assert_eq!(info.suspicious_count, 0);
    assert!(iocs.is_empty());
    let (info, _) = pdf::analyze(b"");
    assert_eq!(info.suspicious_count, 0);
}

#[test]
fn pdf_contains_windows() {
    assert!(pdf::contains(b"abc/JSdef", b"/JS"));
    assert!(!pdf::contains(b"/J", b"/JS"));
    assert!(pdf::contains(b"anything", b""));
}

fn shortcut(command: &[u8]) -> Vec<u8> {
    let mut v = vec![0x4C, 0x00, 0x00, 0x00, 0x01, 0x14, 0x02, 0x00];
    v.extend_from_slice(command);
    v.push(0);
    v
}

#[test]
fn shortcut_with_encoded_powershell() {
    let data = shortcut(b"C:\\Windows\\System32\\WindowsPowerShell\\v1.0\\powershell.exe -enc ZQBjAGgAbwA=");
    let (info, iocs) = lnk::analyze(&data);
    assert_eq!(info.suspicious_args, vec!["powershell".to_string(), "-enc ".to_string()]);
    assert_eq!(
        info.target_hint,
        "C:\\Windows\\System32\\WindowsPowerShell\\v1.0\\powershell.exe -enc ZQBjAGgAbwA="
    );
    assert_eq!(iocs.len(), 2);
    assert_eq!(iocs[0].ioc_type, "Raccourci LNK");
    assert_eq!(iocs[0].severity, Severity::High);
    assert_eq!(iocs[0].description, "PowerShell invoqué depuis un raccourci");
    assert_eq!(iocs[1].value, "-enc ");
    assert_eq!(iocs[1].severity, Severity::Critical);
}

#[test]
fn shortcut_wide_strings_are_read() {
    let mut data = vec![0x4C, 0x00, 0x00, 0x00];
    for c in "cmd /c start %TEMP%\\x.bat".encode_utf16() {
        data.extend_from_slice(&c.to_le_bytes());
    }
    data.extend_from_slice(&[0, 0]);
    let (info, iocs) = lnk::analyze(&data);
    assert_eq!(info.suspicious_args, vec!["cmd /c".to_string(), "%temp%".to_string()]);
    assert_eq!(info.target_hint, "cmd /c start %TEMP%\\x.bat");
    assert_eq!(iocs.len(), 2);
    assert_eq!(iocs[1].severity, Severity::Medium);
}

#[test]
fn shortcut_without_target() {
    let (info, iocs) = lnk::analyze(&shortcut(b"just some text here"));
    assert!(info.suspicious_args.is_empty());
    assert!(iocs.is_empty());
    assert_eq!(info.target_hint, "Cible non identifiée");
}

#[test]
fn shortcut_target_is_trimmed_and_cut() {
    let mut cmd = b"   ".to_vec();
    cmd.extend(std::iter::repeat(b'a').take(250));
    cmd.extend_from_slice(b".exe   ");
    let (info, _) = lnk::analyze(&shortcut(&cmd));
    assert_eq!(info.target_hint.chars().count(), 200);
    assert!(info.target_hint.chars().all(|c| c == 'a'));
}

#[test]
fn shortcut_text_runs() {
    assert_eq!(lnk::byte_codes_exec(&[0x41, 0x00, 0xFF]), vec![0x41, 0x00, 0xFF]);
    assert_eq!(lnk::printable_runs_exec(&[0x41, 0x42, 0x43, 0x44, 0x01, 0x45], 4), vec!['A', 'B', 'C', 'D', '\n']);
}

#[test]
fn shortcut_patterns_in_lower_cased_text() {
    let lower: Vec<char> = "powershell -enc aqbfafga".chars().collect();
    let (args, iocs) = lnk::shortcut_pattern_hits(&lower);
    assert_eq!(args, vec!["powershell".to_string(), "-enc ".to_string()]);
    assert_eq!(iocs.len(), 2);
    assert_eq!(iocs[0].ioc_type, "Raccourci LNK");
    assert_eq!(iocs[0].value, "powershell");
    assert_eq!(iocs[0].severity, Severity::High);
    assert_eq!(iocs[1].value, "-enc ");
    assert_eq!(iocs[1].description, "Commande PowerShell encodée (forme courte)");
    assert_eq!(iocs[1].severity, Severity::Critical);
    let upper: Vec<char> = "POWERSHELL".chars().collect();
    let (args, iocs) = lnk::shortcut_pattern_hits(&upper);
    assert!(args.is_empty());
    assert!(iocs.is_empty());
}
