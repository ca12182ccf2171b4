use filescanner::strings::{dedup_take, extract_ascii_strings, extract_iocs, iocs_from_matches};
use filescanner::types::Severity;

fn chars(s: &str) -> Vec<char> {
    s.chars().collect()
}

#[test]
fn ascii_strings_of_six_or_more() {
    assert_eq!(extract_ascii_strings(b"abc\x00abcdef\x01ghijklm"), "abcdef\nghijklm");
    assert_eq!(extract_ascii_strings(b"abcdefg\x00"), "abcdefg\n");
    assert_eq!(extract_ascii_strings(b"short\x00x"), "");
}

#[test]
fn dedup_take_sorts_and_caps() {
    let items = vec![chars("pear"), chars("apple"), chars("pear"), chars("fig")];
    assert_eq!(dedup_take(&items, 10), vec!["apple".to_string(), "fig".to_string(), "pear".to_string()]);
    assert_eq!(dedup_take(&items, 2), vec!["apple".to_string(), "fig".to_string()]);
    assert!(dedup_take(&items, 0).is_empty());
    assert!(dedup_take(&vec![], 5).is_empty());
}

#[test]
fn urls_ips_and_emails() {
    let data = b"visit http://evil-site.example/payload now\x00mail bad.guy@evil.example\x00hosts 10.1.2.3 and 127.0.0.1 and 0.1.2.3\x00";
    let (found, iocs) = extract_iocs(data);
    assert_eq!(found.urls, vec!["http://evil-site.example/payload".to_string()]);
    assert_eq!(found.ips, vec!["10.1.2.3".to_string()]);
    assert_eq!(found.emails, vec!["bad.guy@evil.example".to_string()]);
    assert!(found.btc_wallets.is_empty());
    assert!(found.onion_addresses.is_empty());
    assert!(found.registry_keys.is_empty());
    assert!(iocs.is_empty());
}

#[test]
fn allowlisted_urls_are_dropped() {
    let data = b"see https://schemas.microsoft.com/office/2006 and http://tracker.example/beacon\x00";
    let (found, _) = extract_iocs(data);
    assert_eq!(found.urls, vec!["http://tracker.example/beacon".to_string()]);
}

#[test]
fn repeated_urls_are_listed_once_in_order() {
    let data = b"http://zz.example/a http://aa.example/b http://zz.example/a\x00";
    let (found, _) = extract_iocs(data);
    assert_eq!(found.urls, vec!["http://aa.example/b".to_string(), "http://zz.example/a".to_string()]);
}

#[test]
fn tor_address_gives_an_indicator() {
    let data = b"connect to abcdefghijklmnop.onion now\x00";
    let (found, iocs) = extract_iocs(data);
    assert_eq!(found.onion_addresses, vec!["abcdefghijklmnop.onion".to_string()]);
    assert_eq!(iocs.len(), 1);
    assert_eq!(iocs[0].ioc_type, "Réseau Tor");
    assert_eq!(iocs[0].value, "abcdefghijklmnop.onion");
    assert_eq!(iocs[0].severity, Severity::High);
    assert_eq!(iocs[0].description, "1 adresse(s) .onion — communication Tor cachée");
}

#[test]
fn bitcoin_wallet_gives_an_indicator() {
    let data = b"pay to 1BoatSLRHtKNngkdXEeobR76b53LETtpyT today\x00";
    let (found, iocs) = extract_iocs(data);
    assert_eq!(found.btc_wallets, vec!["1BoatSLRHtKNngkdXEeobR76b53LETtpyT".to_string()]);
    assert_eq!(iocs.len(), 1);
    assert_eq!(iocs[0].ioc_type, "Crypto wallet");
    assert_eq!(iocs[0].severity, Severity::Medium);
    assert_eq!(iocs[0].description, "1 adresse(s) Bitcoin — possible ransomware/mineur");
}

#[test]
fn run_key_gives_a_persistence_indicator() {
    let data = b"reg add HKEY_LOCAL_MACHINE\\Software\\Microsoft\\Windows\\CurrentVersion\\Run\\evil\x00";
    let (found, iocs) = extract_iocs(data);
    assert_eq!(
        found.registry_keys,
        vec!["HKEY_LOCAL_MACHINE\\Software\\Microsoft\\Windows\\CurrentVersion\\Run\\evil".to_string()]
    );
    assert_eq!(iocs.len(), 1);
    assert_eq!(iocs[0].ioc_type, "Persistance");
    assert_eq!(iocs[0].value, "HKEY_LOCAL_MACHINE\\Software\\Microsoft\\Windows\\CurrentVersion\\Run\\evil");
    assert_eq!(iocs[0].description, "Référence à une clé de démarrage automatique");
}

#[test]
fn many_urls_give_a_network_indicator_and_are_capped() {
    let mut data = Vec::new();
    for i in 0..60 {
        data.extend_from_slice(format!("http://host{i:02}.example/path\x00").as_bytes());
    }
    let (found, iocs) = extract_iocs(&data);
    assert_eq!(found.urls.len(), 50);
    assert_eq!(found.urls[0], "http://host00.example/path");
    assert_eq!(found.urls[49], "http://host49.example/path");
    assert_eq!(iocs.len(), 1);
    assert_eq!(iocs[0].ioc_type, "Réseau");
    assert_eq!(iocs[0].value, "60 URLs");
    assert_eq!(iocs[0].severity, Severity::Low);
}

#[test]
fn ascii_strings_lines_are_the_runs() {
    let data = b"\x01abcdef\x02xyz\x03ghijklmn\x04tail12";
    let text = extract_ascii_strings(data);
    let lines: Vec<&str> = text.lines().collect();
    assert_eq!(lines, vec!["abcdef", "ghijklmn", "tail12"]);
}

#[test]
fn indicators_from_raw_matches() {
    let urls = vec![
        chars("http://b.example/x"),
        chars("http://www.w3.org/1999/xhtml"),
        chars("http://a.example/"),
        chars("http://b.example/x"),
    ];
    let ips = vec![chars("10.0.0.1"), chars("0.1.2.3"), chars("8.8.8.8"), chars("192.168.1.1"), chars("10.0.0.1")];
    let emails = vec![chars("z@x.example"), chars("a@x.example")];
    let btc = vec![chars("1BoatSLRHtKNngkdXEeobR76b53LETtpyT")];
    let onion: Vec<Vec<char>> = vec![];
    let registry = vec![chars("Software\\Classes\\x"), chars("SOFTWARE\\Microsoft\\Windows NT\\CurrentVersion\\Winlogon")];
    let (found, iocs) = iocs_from_matches(&urls, &ips, &emails, &btc, &onion, &registry);
    assert_eq!(found.urls, vec!["http://a.example/".to_string(), "http://b.example/x".to_string()]);
    assert_eq!(found.ips, vec!["10.0.0.1".to_string(), "192.168.1.1".to_string()]);
    assert_eq!(found.emails, vec!["a@x.example".to_string(), "z@x.example".to_string()]);
    assert_eq!(found.btc_wallets, vec!["1BoatSLRHtKNngkdXEeobR76b53LETtpyT".to_string()]);
    assert!(found.onion_addresses.is_empty());
    assert_eq!(found.registry_keys.len(), 2);
    assert_eq!(iocs.len(), 2);
    assert_eq!(iocs[0].ioc_type, "Crypto wallet");
    assert_eq!(iocs[0].value, "1BoatSLRHtKNngkdXEeobR76b53LETtpyT");
    assert_eq!(iocs[1].ioc_type, "Persistance");
    assert_eq!(iocs[1].value, "SOFTWARE\\Microsoft\\Windows NT\\CurrentVersion\\Winlogon");
    assert_eq!(iocs[1].severity, Severity::Medium);
}

#[test]
fn many_raw_urls_are_counted_and_capped() {
    let urls: Vec<Vec<char>> = (0..60).map(|i| chars(&format!("http://host{:02}.example/", i))).collect();
    let none: Vec<Vec<char>> = vec![];
    let (found, iocs) = iocs_from_matches(&urls, &none, &none, &none, &none, &none);
    assert_eq!(found.urls.len(), 50);
    assert_eq!(found.urls[0], "http://host00.example/");
    assert_eq!(found.urls[49], "http://host49.example/");
    assert_eq!(iocs.len(), 1);
    assert_eq!(iocs[0].ioc_type, "Réseau");
    assert_eq!(iocs[0].value, "60 URLs");
    assert_eq!(iocs[0].severity, Severity::Low);
}
