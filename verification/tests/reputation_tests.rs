use filescanner::types::ScanError;
use filescanner::vt::{
    check_lookup_input, detection_names, retry_delay, scan_date_text, status_error, vt_result_from, EngineVerdict,
    VtStats, MAX_RETRIES, VT_API_BASE,
};

const DIGEST: &str = "ba7816bf8f01cfea414140de5dae2223b00361a396177a9cb410ff61f20015ad";

fn internal(r: &Result<(), ScanError>) -> Option<String> {
    match r {
        Err(ScanError::Internal(m)) => Some(m.clone()),
        _ => None,
    }
}

fn engine(category: &str, result: Option<&str>) -> EngineVerdict {
    EngineVerdict { category: category.to_string(), result: result.map(|s| s.to_string()) }
}

#[test]
fn constants() {
    assert_eq!(VT_API_BASE, "https://www.virustotal.com/api/v3");
    assert_eq!(MAX_RETRIES, 3);
}

#[test]
fn lookup_input_checks() {
    assert!(check_lookup_input(DIGEST, "key").is_ok());
    assert_eq!(
        internal(&check_lookup_input(&DIGEST.to_uppercase(), "key")),
        Some("Hash SHA-256 invalide".to_string())
    );
    assert_eq!(internal(&check_lookup_input(&"A".repeat(64), "key")), Some("Hash SHA-256 invalide".to_string()));
    assert_eq!(internal(&check_lookup_input(DIGEST, "")), Some("Clé API absente".to_string()));
    assert_eq!(internal(&check_lookup_input("abc", "")), Some("Clé API absente".to_string()));
    assert_eq!(internal(&check_lookup_input("abc", "key")), Some("Hash SHA-256 invalide".to_string()));
    let bad = format!("{}g", &DIGEST[..63]);
    assert_eq!(internal(&check_lookup_input(&bad, "key")), Some("Hash SHA-256 invalide".to_string()));
    let long = format!("{DIGEST}0");
    assert_eq!(internal(&check_lookup_input(&long, "key")), Some("Hash SHA-256 invalide".to_string()));
    let accented = format!("{}é", &DIGEST[..63]);
    assert_eq!(internal(&check_lookup_input(&accented, "key")), Some("Hash SHA-256 invalide".to_string()));
}

#[test]
fn reply_status_meaning() {
    assert!(matches!(status_error(429), Some(ScanError::RateLimited)));
    match status_error(404) {
        Some(ScanError::Internal(m)) => assert_eq!(m, "Fichier inconnu de VirusTotal"),
        _ => panic!("404 must be an internal error"),
    }
    match status_error(503) {
        Some(ScanError::Internal(m)) => assert_eq!(m, "VirusTotal API erreur HTTP 503"),
        _ => panic!("503 must be an internal error"),
    }
    match status_error(400) {
        Some(ScanError::Internal(m)) => assert_eq!(m, "VirusTotal API erreur HTTP 400"),
        _ => panic!("400 must be an internal error"),
    }
    assert!(status_error(200).is_none());
    assert!(status_error(399).is_none());
}

#[test]
fn retry_schedule() {
    assert_eq!(retry_delay(0, &ScanError::RateLimited), Some(500));
    assert_eq!(retry_delay(1, &ScanError::RateLimited), Some(1000));
    assert_eq!(retry_delay(2, &ScanError::RateLimited), None);
    assert_eq!(retry_delay(7, &ScanError::RateLimited), None);
    assert_eq!(retry_delay(0, &ScanError::Internal("x".to_string())), None);
    assert_eq!(retry_delay(0, &ScanError::HttpError("x".to_string())), None);
}

#[test]
fn detection_names_keep_malicious_named_results() {
    let engines = vec![
        engine("malicious", Some("Trojan.A")),
        engine("undetected", Some("Clean")),
        engine("malicious", None),
        engine("suspicious", Some("Heur.B")),
        engine("malicious", Some("Worm.C")),
    ];
    assert_eq!(detection_names(&engines), vec!["Trojan.A".to_string(), "Worm.C".to_string()]);
    assert!(detection_names(&vec![]).is_empty());
}

#[test]
fn detection_names_stop_at_fifteen() {
    let engines: Vec<EngineVerdict> = (0..20).map(|i| EngineVerdict {
        category: "malicious".to_string(),
        result: Some(format!("Name{i}")),
    }).collect();
    let names = detection_names(&engines);
    assert_eq!(names.len(), 15);
    assert_eq!(names[0], "Name0");
    assert_eq!(names[14], "Name14");
}

#[test]
fn scan_dates() {
    assert_eq!(scan_date_text(Some(0)), "1970-01-01 00:00 UTC");
    assert_eq!(scan_date_text(Some(1_700_000_000)), "2023-11-14 22:13 UTC");
    assert_eq!(scan_date_text(None), "");
    assert_eq!(scan_date_text(Some(i64::MAX)), "");
}

#[test]
fn report_from_reply() {
    let stats = VtStats { malicious: 5, suspicious: 1, undetected: 60, harmless: 4 };
    let engines = vec![engine("malicious", Some("Eicar")), engine("harmless", None)];
    let r = vt_result_from(DIGEST, &stats, &engines, Some(0));
    assert_eq!(r.positives, 5);
    assert_eq!(r.total, 70);
    assert_eq!(r.permalink, format!("https://www.virustotal.com/gui/file/{DIGEST}"));
    assert_eq!(r.scan_date, "1970-01-01 00:00 UTC");
    assert_eq!(r.detection_names, vec!["Eicar".to_string()]);
}
