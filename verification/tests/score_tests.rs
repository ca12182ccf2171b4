use filescanner::score::{compute_score, determine_verdict};
use filescanner::types::{
    ArchiveInfo, BinaryInfo, EntropyLevel, ExtractedIoCs, LnkInfo, PdfInfo, ScriptInfo, Severity, Verdict,
    VtResult, YaraMatch,
};

fn no_iocs() -> ExtractedIoCs {
    ExtractedIoCs {
        urls: vec![],
        ips: vec![],
        emails: vec![],
        btc_wallets: vec![],
        onion_addresses: vec![],
        registry_keys: vec![],
    }
}

fn vt(positives: u32) -> VtResult {
    VtResult {
        positives,
        total: 70,
        permalink: String::new(),
        scan_date: String::new(),
        detection_names: vec![],
    }
}

fn yara(name: &str, severity: Severity) -> YaraMatch {
    YaraMatch {
        rule_name: name.to_string(),
        description: String::new(),
        severity,
        matched_strings: vec![],
    }
}

fn archive(nested: bool, double: bool, encrypted: bool, vba: bool, kws: &[&str]) -> ArchiveInfo {
    ArchiveInfo {
        archive_type: "ZIP".to_string(),
        total_entries: 1,
        entries: vec![],
        has_nested_executable: nested,
        has_double_extension: double,
        has_encrypted_entries: encrypted,
        has_vba_macros: vba,
        vba_keywords: kws.iter().map(|s| s.to_string()).collect(),
    }
}

fn pdf(js: bool, open: bool, launch: bool, count: usize) -> PdfInfo {
    PdfInfo {
        has_javascript: js,
        has_open_action: open,
        has_launch_action: launch,
        has_embedded_files: false,
        has_acroform: false,
        suspicious_count: count,
    }
}

fn lnk(args: &[&str]) -> LnkInfo {
    LnkInfo { target_hint: String::new(), suspicious_args: args.iter().map(|s| s.to_string()).collect() }
}

fn binary(level: EntropyLevel, susp: &[&str]) -> BinaryInfo {
    BinaryInfo {
        format: "PE".to_string(),
        is_64bit: true,
        is_signed: false,
        sections: vec![],
        imports: vec![],
        entry_point: 0,
        entropy_level: level,
        suspicious_imports: susp.iter().map(|s| s.to_string()).collect(),
        is_packed: false,
    }
}

fn script(obf: bool, calls: usize) -> ScriptInfo {
    ScriptInfo {
        obfuscation_detected: obf,
        dangerous_calls: (0..calls).map(|i| format!("call{i}")).collect(),
        base64_blobs_count: 0,
        script_type: "PowerShell".to_string(),
        matched_lines: vec![],
        base64_samples: vec![],
    }
}

#[test]
fn verdict_thresholds() {
    assert_eq!(determine_verdict(0), Verdict::Safe);
    assert_eq!(determine_verdict(25), Verdict::Safe);
    assert_eq!(determine_verdict(26), Verdict::Suspicious);
    assert_eq!(determine_verdict(64), Verdict::Suspicious);
    assert_eq!(determine_verdict(65), Verdict::Malicious);
    assert_eq!(determine_verdict(100), Verdict::Malicious);
    assert_eq!(determine_verdict(255), Verdict::Malicious);
}

#[test]
fn empty_findings_score_zero() {
    let s = compute_score(None, None, None, None, None, None, &[], false, &no_iocs());
    assert_eq!(s, 0);
}

#[test]
fn clamav_hit_scores_95() {
    let s = compute_score(None, None, None, None, None, None, &[], true, &no_iocs());
    assert_eq!(s, 95);
    assert_eq!(determine_verdict(s), Verdict::Malicious);
}

#[test]
fn reputation_floors() {
    let e = no_iocs();
    assert_eq!(compute_score(None, None, None, None, None, Some(&vt(10)), &[], false, &e), 95);
    assert_eq!(compute_score(None, None, None, None, None, Some(&vt(3)), &[], false, &e), 85);
    assert_eq!(compute_score(None, None, None, None, None, Some(&vt(1)), &[], false, &e), 60);
    assert_eq!(compute_score(None, None, None, None, None, Some(&vt(0)), &[], false, &e), 0);
}

#[test]
fn pattern_rules_add_up_and_cap() {
    let e = no_iocs();
    let two = vec![yara("A", Severity::Critical), yara("B", Severity::High)];
    assert_eq!(compute_score(None, None, None, None, None, None, &two, false, &e), 55);
    let many = vec![
        yara("A", Severity::Critical),
        yara("B", Severity::Critical),
        yara("C", Severity::Critical),
        yara("D", Severity::Low),
    ];
    assert_eq!(compute_score(None, None, None, None, None, None, &many, false, &e), 100);
    let low = vec![yara("A", Severity::Medium), yara("B", Severity::Low)];
    assert_eq!(compute_score(None, None, None, None, None, None, &low, false, &e), 15);
}

#[test]
fn binary_entropy_and_imports() {
    let e = no_iocs();
    let b = binary(EntropyLevel::Extreme, &["CreateRemoteThread", "VirtualAllocEx"]);
    assert_eq!(compute_score(Some(&b), None, None, None, None, None, &[], false, &e), 50);
    let b = binary(EntropyLevel::High, &[]);
    assert_eq!(compute_score(Some(&b), None, None, None, None, None, &[], false, &e), 10);
    let b = binary(EntropyLevel::Elevated, &["GetAsyncKeyState"]);
    assert_eq!(compute_score(Some(&b), None, None, None, None, None, &[], false, &e), 5);
    let b = binary(
        EntropyLevel::Normal,
        &["CreateRemoteThread", "WriteProcessMemory", "QueueUserAPC", "ptrace"],
    );
    assert_eq!(compute_score(Some(&b), None, None, None, None, None, &[], false, &e), 40);
}

#[test]
fn script_findings() {
    let e = no_iocs();
    assert_eq!(compute_score(None, Some(&script(true, 0)), None, None, None, None, &[], false, &e), 60);
    assert_eq!(compute_score(None, Some(&script(false, 3)), None, None, None, None, &[], false, &e), 24);
    assert_eq!(compute_score(None, Some(&script(false, 10)), None, None, None, None, &[], false, &e), 60);
}

#[test]
fn archive_findings() {
    let e = no_iocs();
    let a = archive(false, true, false, false, &[]);
    assert_eq!(compute_score(None, None, Some(&a), None, None, None, &[], false, &e), 85);
    let a = archive(false, false, false, true, &["AutoOpen", "Shell"]);
    assert_eq!(compute_score(None, None, Some(&a), None, None, None, &[], false, &e), 80);
    let a = archive(false, false, false, true, &["AutoOpen"]);
    assert_eq!(compute_score(None, None, Some(&a), None, None, None, &[], false, &e), 45);
    let a = archive(true, false, true, false, &[]);
    assert_eq!(compute_score(None, None, Some(&a), None, None, None, &[], false, &e), 70);
    let a = archive(true, false, false, false, &[]);
    assert_eq!(compute_score(None, None, Some(&a), None, None, None, &[], false, &e), 15);
}

#[test]
fn pdf_findings() {
    let e = no_iocs();
    let p = pdf(true, true, true, 3);
    assert_eq!(compute_score(None, None, None, Some(&p), None, None, &[], false, &e), 95);
    let p = pdf(true, false, false, 1);
    assert_eq!(compute_score(None, None, None, Some(&p), None, None, &[], false, &e), 50);
    let p = pdf(false, true, false, 1);
    assert_eq!(compute_score(None, None, None, Some(&p), None, None, &[], false, &e), 5);
}

#[test]
fn shortcut_findings() {
    let e = no_iocs();
    let l = lnk(&["powershell", "mshta"]);
    assert_eq!(compute_score(None, None, None, None, Some(&l), None, &[], false, &e), 85);
    let l = lnk(&["powershell", "wscript"]);
    assert_eq!(compute_score(None, None, None, None, Some(&l), None, &[], false, &e), 24);
    let l = lnk(&["a", "b", "c", "d", "e", "f"]);
    assert_eq!(compute_score(None, None, None, None, Some(&l), None, &[], false, &e), 60);
}

#[test]
fn hidden_network_indicators() {
    let mut e = no_iocs();
    e.onion_addresses.push("abcdefghijklmnop.onion".to_string());
    assert_eq!(compute_score(None, None, None, None, None, None, &[], false, &e), 15);
    let mut e = no_iocs();
    e.btc_wallets.push("1BoatSLRHtKNngkdXEeobR76b53LETtpyT".to_string());
    assert_eq!(compute_score(None, None, None, None, None, None, &[], false, &e), 0);
    let r = vec![yara("Ransomware_Payment", Severity::Critical)];
    assert_eq!(compute_score(None, None, None, None, None, None, &r, false, &e), 90);
}

#[test]
fn known_malware_stays_malicious() {
    // Whatever else was found, a signature hit or three engines keep the verdict malicious.
    let e = no_iocs();
    let p = pdf(false, false, false, 0);
    let s = compute_score(None, None, None, Some(&p), None, Some(&vt(3)), &[], false, &e);
    assert_eq!(determine_verdict(s), Verdict::Malicious);
    let s = compute_score(None, None, None, None, None, Some(&vt(0)), &[], true, &e);
    assert_eq!(determine_verdict(s), Verdict::Malicious);
}

#[test]
fn higher_score_never_milder() {
    let rank = |v: Verdict| match v {
        Verdict::Safe | Verdict::Unknown => 0,
        Verdict::Suspicious => 1,
        Verdict::Malicious => 2,
    };
    for a in 0u8..=100 {
        assert!(rank(determine_verdict(a)) <= rank(determine_verdict(a.saturating_add(1))));
    }
}

#[test]
fn rule_order_is_irrelevant_and_more_rules_never_lower() {
    let e = no_iocs();
    let a = vec![yara("A", Severity::Low), yara("Ransomware_X", Severity::High), yara("B", Severity::Critical)];
    let b = vec![yara("B", Severity::Critical), yara("A", Severity::Low), yara("Ransomware_X", Severity::High)];
    let sa = compute_score(None, None, None, None, None, None, &a, false, &e);
    let sb = compute_score(None, None, None, None, None, None, &b, false, &e);
    assert_eq!(sa, sb);
    let mut c = a.clone();
    c.push(yara("C", Severity::Medium));
    assert!(compute_score(None, None, None, None, None, None, &c, false, &e) >= sa);
}
