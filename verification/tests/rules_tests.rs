use filescanner::types::Severity;
use filescanner::yara::{build_rules, match_pattern_desc, Pattern, YaraEngine};

#[test]
fn rule_set_has_thirty_eight_rules() {
    let rules = build_rules();
    assert_eq!(rules.len(), 38);
    assert_eq!(rules[0].name, "UPX_Packer");
}

#[test]
fn upx_marker_fires_the_packer_rule() {
    let engine = YaraEngine::new();
    let m = engine.scan(b"....UPX0....");
    assert_eq!(m.len(), 1);
    assert_eq!(m[0].rule_name, "UPX_Packer");
    assert_eq!(m[0].description, "Packer UPX détecté (compression PE)");
    assert_eq!(m[0].severity, Severity::Medium);
    assert_eq!(m[0].matched_strings, vec!["\"UPX0\"".to_string()]);
}

#[test]
fn both_upx_markers_are_reported() {
    let m = YaraEngine::default().scan(b"UPX!xxxxUPX0");
    assert_eq!(m.len(), 1);
    assert_eq!(m[0].matched_strings, vec!["\"UPX0\"".to_string(), "\"UPX!\"".to_string()]);
}

#[test]
fn nop_sled_is_reported_in_hex() {
    let mut data = vec![0x41u8; 10];
    data.extend(std::iter::repeat(0x90u8).take(64));
    let m = YaraEngine::new().scan(&data);
    assert_eq!(m.len(), 1);
    assert_eq!(m[0].rule_name, "Shellcode_Patterns");
    assert_eq!(m[0].severity, Severity::High);
    let expected = format!("hex: {}", vec!["90"; 64].join(" "));
    assert_eq!(m[0].matched_strings, vec![expected]);
}

#[test]
fn short_nop_run_does_not_fire() {
    let data = vec![0x90u8; 63];
    assert!(YaraEngine::new().scan(&data).is_empty());
}

#[test]
fn require_all_rules_need_every_pattern() {
    let engine = YaraEngine::new();
    assert!(engine.scan(b"pay in bitcoin only").is_empty());
    let m = engine.scan(b"Pay in BITCOIN using the Tor Browser");
    assert_eq!(m.len(), 1);
    assert_eq!(m[0].rule_name, "Ransomware_Payment");
    assert_eq!(m[0].severity, Severity::Critical);
    assert_eq!(m[0].matched_strings, vec!["\"bitcoin\"".to_string(), "\"tor browser\"".to_string()]);
}

#[test]
fn case_insensitive_patterns_report_their_own_text() {
    let m = YaraEngine::new().scan(b"see readme_for_decrypt.txt");
    assert_eq!(m.len(), 1);
    assert_eq!(m[0].rule_name, "Ransomware_Note_Names");
    assert_eq!(m[0].matched_strings, vec!["\"README_FOR_DECRYPT\"".to_string()]);
}

#[test]
fn rules_fire_in_rule_order() {
    let m = YaraEngine::new().scan(b"mimikatz UPX0");
    let names: Vec<&str> = m.iter().map(|x| x.rule_name.as_str()).collect();
    assert_eq!(names, vec!["UPX_Packer", "Mimikatz_Strings"]);
}

#[test]
fn clean_data_fires_nothing() {
    assert!(YaraEngine::new().scan(b"just an ordinary text file").is_empty());
    assert!(YaraEngine::new().scan(b"").is_empty());
}

#[test]
fn pattern_descriptions() {
    let data = b"ab\x01\x02cd";
    let lower = data.to_ascii_lowercase();
    assert_eq!(match_pattern_desc(data, &lower, &Pattern::Bytes(b"cd")), Some("\"cd\"".to_string()));
    assert_eq!(match_pattern_desc(data, &lower, &Pattern::Bytes(b"\x01\x02")), Some("hex: 01 02".to_string()));
    assert_eq!(match_pattern_desc(data, &lower, &Pattern::Bytes(b"zz")), None);
    assert_eq!(match_pattern_desc(data, &lower, &Pattern::StringInsensitive("AB")), Some("\"AB\"".to_string()));
}

#[test]
fn containing_file_keeps_the_hits() {
    let engine = YaraEngine::new();
    let inner = b"mimikatz sekurlsa UPX0".to_vec();
    let mut outer = b"header bytes ".to_vec();
    outer.extend_from_slice(&inner);
    outer.extend_from_slice(b" trailer LSADUMP");
    let a = engine.scan(&inner);
    let b = engine.scan(&outer);
    for m in &a {
        let kept = b.iter().find(|x| x.rule_name == m.rule_name).expect("rule still fires");
        let mut at = 0;
        for s in &m.matched_strings {
            let pos = kept.matched_strings[at..].iter().position(|x| x == s).expect("report kept in order");
            at += pos + 1;
        }
    }
    let mimi = b.iter().find(|x| x.rule_name == "Mimikatz_Strings").unwrap();
    assert_eq!(mimi.matched_strings.len(), 3);
}
