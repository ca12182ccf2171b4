//! Indicators of compromise in the printable strings of a file: URLs, IPv4
//! addresses, e-mail addresses, Bitcoin wallets, onion addresses and
//! registry keys.

use vstd::prelude::*;
use crate::lnk::{byte_codes, byte_codes_exec, printable_runs, printable_runs_exec, printable_runs_lines, runs_list};
use crate::sorted::{sorted_elements, sorted_set, strictly_sorted, views};
use crate::text::{
    any_contained, any_equal, chars_of, contains_any, contains_chars, decimal, decimal_chars,
    is_one_of, seq_contains, seq_starts_with, string_of, take_at_most, take_chars, to_lowercase,
    unicode_lower,
};
use crate::types::{ioc_view, iocs_view, strings_view, ExtractedIoCs, IoC, Severity};

verus! {

/// The successive non-overlapping matches of a regular expression in a
/// text, as the `regex` crate finds them; `None` when the pattern does not
/// compile.
pub uninterp spec fn regex_matches_of(pattern: Seq<char>, text: Seq<char>) -> Option<Seq<Seq<char>>>;

/// Calls `regex::Regex::new` on the pattern and `find_iter` on the text,
/// taking the text of each match; the matching rules of the crate are named,
/// not restated.
#[verifier::external_body]
fn regex_find_all(pattern: &str, text: &str) -> (r: Option<Vec<String>>)
    ensures
        match r {
            Some(v) => regex_matches_of(pattern@, text@) == Some(strings_view(v@)),
            None => regex_matches_of(pattern@, text@) is None,
        },
{
    regex::Regex::new(pattern).ok().map(|re| re.find_iter(text).map(|m| m.as_str().to_string()).collect())
}

/// The matches of a pattern, none when it does not compile.
pub open spec fn found(pattern: Seq<char>, text: Seq<char>) -> Seq<Seq<char>> {
    match regex_matches_of(pattern, text) {
        Some(ms) => ms,
        None => seq![],
    }
}

/// The first 4 MiB of the data (all of it when shorter).
pub open spec fn head_4m(data: Seq<u8>) -> Seq<u8> {
    take_at_most(data, 4194304)
}

/// The printable runs of at least six ASCII characters of the first 4 MiB,
/// one per line.
pub open spec fn ascii_strings(data: Seq<u8>) -> Seq<char> {
    printable_runs(byte_codes(head_4m(data)), 6)
}

/// The lines of the extracted text are, in order, exactly the maximal runs
/// of at least six printable ASCII bytes of the first 4 MiB; and the text
/// of the data is that of its first 4 MiB.
pub proof fn ascii_strings_are_the_runs(data: Seq<u8>)
    ensures
        crate::text::split_lines(ascii_strings(data)) == runs_list(byte_codes(head_4m(data)), 6),
        ascii_strings(data) == ascii_strings(head_4m(data)),
{
    printable_runs_lines(byte_codes(head_4m(data)), 6);
    assert(head_4m(head_4m(data)) =~= head_4m(data));
}

/// The printable runs of at least six ASCII characters of the first 4 MiB
/// of `data`, each followed by a newline except one that reaches the end.
pub fn extract_ascii_strings(data: &[u8]) -> (r: String)
    ensures
        r@ == ascii_strings(data@),
{
    let n = if data.len() <= 4194304 { data.len() } else { 4194304 };
    let slice = vstd::slice::slice_subrange(data, 0, n);
    proof {
        if data@.len() <= 4194304 {
            assert(slice@ =~= data@);
        }
    }
    let runs = printable_runs_exec(byte_codes_exec(slice).as_slice(), 6);
    string_of(runs.as_slice())
}

/// The distinct items in increasing order, at most `max` of them.
pub fn dedup_take(items: &Vec<Vec<char>>, max: usize) -> (r: Vec<String>)
    ensures
        strings_view(r@) == take_at_most(sorted_elements(views(items@).to_set()), max as nat),
        strictly_sorted(strings_view(r@)),
        r@.len() <= max,
        forall|k: int| 0 <= k < r@.len() ==> views(items@).contains(#[trigger] strings_view(r@)[k]),
{
    let set = sorted_set(items);
    let mut out: Vec<String> = Vec::new();
    let mut i: usize = 0;
    while i < max && i < set.len()
        invariant
            i <= set@.len(),
            i <= max,
            strings_view(out@) == views(set@).take(i as int),
        decreases set@.len() - i,
    {
        let ghost old = strings_view(out@);
        out.push(string_of(set[i].as_slice()));
        proof {
            assert(strings_view(out@) =~= old.push(views(set@)[i as int]));
            assert(views(set@).take(i + 1) =~= views(set@).take(i as int).push(views(set@)[i as int]));
        }
        i += 1;
    }
    proof {
        if views(set@).len() <= max {
            assert(views(set@).take(i as int) =~= views(set@));
        }
        assert forall|k: int| 0 <= k < out@.len() implies views(items@).contains(#[trigger] strings_view(out@)[k]) by {
            assert(strings_view(out@)[k] == views(set@)[k]);
            assert(views(set@).to_set().contains(views(set@)[k]));
            assert(views(set@).to_set() == views(items@).to_set());
        }
    }
    out
}

/// URL pattern.
pub open spec fn re_url() -> &'static str { r#"https?://[A-Za-z0-9\-._~:/?#\[\]@!$&'()*+,;=%]{8,200}"# }
/// IPv4 pattern.
pub open spec fn re_ip() -> &'static str { r"\b((25[0-5]|2[0-4]\d|1\d\d|[1-9]?\d)\.){3}(25[0-5]|2[0-4]\d|1\d\d|[1-9]?\d)\b" }
/// E-mail pattern.
pub open spec fn re_email() -> &'static str { r"\b[A-Za-z0-9._%+-]+@[A-Za-z0-9.-]+\.[A-Za-z]{2,}\b" }
/// Bitcoin wallet pattern (legacy and Bech32).
pub open spec fn re_btc() -> &'static str { r"\b(bc1[a-z0-9]{25,90}|[13][a-km-zA-HJ-NP-Z1-9]{25,34})\b" }
/// Onion address pattern.
pub open spec fn re_onion() -> &'static str { r"\b[a-z2-7]{16,56}\.onion\b" }
/// Registry key pattern.
pub open spec fn re_registry() -> &'static str { r"(?i)(HKEY_[A-Z_]+|HKLM|HKCU|HKCR)\\[\w\\ .\-()%{}]{3,120}" }

/// Domains found in every legitimate binary, whose URLs are ignored.
pub open spec fn url_allowlist() -> Seq<&'static str> {
    seq![
        "schemas.openxmlformats.org", "schemas.microsoft.com", "www.w3.org", "purl.org", "ns.adobe.com",
        "openxmlformats.org", "xml.org", "mozilla.org", "apache.org", "iso.org", "crl.microsoft.com",
        "ocsp.digicert.com", "crl.digicert.com", "sectigo.com", "globalsign.com", "verisign.com",
        "godaddy.com", "comodoca.com", "usertrust.com", "letsencrypt.org", "rust-lang.org",
        "github.com/rust-lang",
    ]
}

/// Addresses too common to mean anything.
pub open spec fn ip_ignored() -> Seq<&'static str> {
    seq!["0.0.0.0", "127.0.0.1", "255.255.255.255", "1.1.1.1", "8.8.8.8"]
}

/// The URLs that mention no allow-listed domain.
pub open spec fn kept_urls(ms: Seq<Seq<char>>) -> Seq<Seq<char>>
    decreases ms.len(),
{
    if ms.len() == 0 {
        seq![]
    } else {
        let prev = kept_urls(ms.drop_last());
        if contains_any(ms.last(), url_allowlist()) { prev } else { prev.push(ms.last()) }
    }
}

/// The addresses that are neither ignored nor in 0.0.0.0/8.
pub open spec fn kept_ips(ms: Seq<Seq<char>>) -> Seq<Seq<char>>
    decreases ms.len(),
{
    if ms.len() == 0 {
        seq![]
    } else {
        let prev = kept_ips(ms.drop_last());
        let ip = ms.last();
        if !is_one_of(ip, ip_ignored()) && !seq_starts_with(ip, "0."@) { prev.push(ip) } else { prev }
    }
}

/// The distinct items in increasing order.
pub open spec fn distinct(ms: Seq<Seq<char>>) -> Seq<Seq<char>> {
    sorted_elements(ms.to_set())
}

/// The key points at an autostart location.
pub open spec fn is_autostart_key(k: Seq<char>) -> bool {
    seq_contains(unicode_lower(k), "currentversion\\run"@) || seq_contains(unicode_lower(k), "winlogon"@)
}

/// Index of the first autostart key, if any.
pub open spec fn first_autostart(keys: Seq<Seq<char>>, from: nat) -> Option<nat>
    decreases keys.len() - from,
{
    if from >= keys.len() {
        None
    } else if is_autostart_key(keys[from as int]) {
        Some(from)
    } else {
        first_autostart(keys, from + 1)
    }
}

/// The indicators drawn from the distinct onion addresses, wallets, URLs and
/// registry keys.
pub open spec fn string_iocs(
    urls: Seq<Seq<char>>,
    btc: Seq<Seq<char>>,
    onion: Seq<Seq<char>>,
    registry: Seq<Seq<char>>,
) -> Seq<(Seq<char>, Seq<char>, Severity, Seq<char>)> {
    let a: Seq<(Seq<char>, Seq<char>, Severity, Seq<char>)> = if onion.len() > 0 {
        seq![("Réseau Tor"@, onion[0], Severity::High,
            decimal(onion.len()) + " adresse(s) .onion — communication Tor cachée"@)]
    } else {
        seq![]
    };
    let b = if btc.len() > 0 {
        a.push(("Crypto wallet"@, btc[0], Severity::Medium,
            decimal(btc.len()) + " adresse(s) Bitcoin — possible ransomware/mineur"@))
    } else {
        a
    };
    let c = if urls.len() > 10 {
        b.push(("Réseau"@, decimal(urls.len()) + " URLs"@, Severity::Low, "Nombre élevé d'URLs embarquées"@))
    } else {
        b
    };
    match first_autostart(registry, 0) {
        Some(i) => c.push(("Persistance"@, take_at_most(registry[i as int], 80), Severity::Medium,
            "Référence à une clé de démarrage automatique"@)),
        None => c,
    }
}

fn chars_list(v: &Vec<String>) -> (r: Vec<Vec<char>>)
    ensures
        views(r@) == strings_view(v@),
{
    let mut out: Vec<Vec<char>> = Vec::new();
    let mut i: usize = 0;
    while i < v.len()
        invariant
            i <= v@.len(),
            views(out@) == strings_view(v@).take(i as int),
        decreases v@.len() - i,
    {
        let ghost old = views(out@);
        out.push(chars_of(v[i].as_str()));
        proof {
            assert(views(out@) =~= old.push(strings_view(v@)[i as int]));
            assert(strings_view(v@).take(i + 1) =~= strings_view(v@).take(i as int).push(strings_view(v@)[i as int]));
        }
        i += 1;
    }
    proof {
        assert(strings_view(v@).take(v@.len() as int) =~= strings_view(v@));
    }
    out
}

fn find_all(pattern: &str, text: &str) -> (r: Vec<Vec<char>>)
    ensures
        views(r@) == found(pattern@, text@),
{
    match regex_find_all(pattern, text) {
        Some(v) => chars_list(&v),
        None => {
            let r: Vec<Vec<char>> = Vec::new();
            proof {
                assert(views(r@) =~= Seq::<Seq<char>>::empty());
            }
            r
        },
    }
}

fn filter_urls(ms: &Vec<Vec<char>>) -> (r: Vec<Vec<char>>)
    ensures
        views(r@) == kept_urls(views(ms@)),
{
    let allow: [&str; 22] = [
        "schemas.openxmlformats.org", "schemas.microsoft.com", "www.w3.org", "purl.org", "ns.adobe.com",
        "openxmlformats.org", "xml.org", "mozilla.org", "apache.org", "iso.org", "crl.microsoft.com",
        "ocsp.digicert.com", "crl.digicert.com", "sectigo.com", "globalsign.com", "verisign.com",
        "godaddy.com", "comodoca.com", "usertrust.com", "letsencrypt.org", "rust-lang.org",
        "github.com/rust-lang",
    ];
    proof {
        assert(allow@ =~= url_allowlist());
    }
    let mut out: Vec<Vec<char>> = Vec::new();
    let mut i: usize = 0;
    while i < ms.len()
        invariant
            allow@ == url_allowlist(),
            i <= ms@.len(),
            views(out@) == kept_urls(views(ms@).take(i as int)),
        decreases ms@.len() - i,
    {
        proof {
            assert(views(ms@).take(i + 1).drop_last() =~= views(ms@).take(i as int));
        }
        let u = string_of(ms[i].as_slice());
        if !any_contained(u.as_str(), &allow) {
            out.push(clone_vec(&ms[i]));
            proof {
                assert(views(out@) =~= kept_urls(views(ms@).take(i + 1)));
            }
        }
        i += 1;
    }
    proof {
        assert(views(ms@).take(ms@.len() as int) =~= views(ms@));
    }
    out
}

fn clone_vec(v: &Vec<char>) -> (r: Vec<char>)
    ensures
        r@ == v@,
{
    let r = v.clone();
    proof {
        assert(r@ =~= v@);
    }
    r
}

fn filter_ips(ms: &Vec<Vec<char>>) -> (r: Vec<Vec<char>>)
    ensures
        views(r@) == kept_ips(views(ms@)),
{
    let ignored: [&str; 5] = ["0.0.0.0", "127.0.0.1", "255.255.255.255", "1.1.1.1", "8.8.8.8"];
    proof {
        assert(ignored@ =~= ip_ignored());
    }
    let zero = chars_of("0.");
    let mut out: Vec<Vec<char>> = Vec::new();
    let mut i: usize = 0;
    while i < ms.len()
        invariant
            ignored@ == ip_ignored(),
            zero@ == "0."@,
            i <= ms@.len(),
            views(out@) == kept_ips(views(ms@).take(i as int)),
        decreases ms@.len() - i,
    {
        proof {
            assert(views(ms@).take(i + 1).drop_last() =~= views(ms@).take(i as int));
        }
        let ip = string_of(ms[i].as_slice());
        let zero_net = zero.len() <= ms[i].len() && crate::text::chars_match_at(ms[i].as_slice(), zero.as_slice(), 0);
        if !any_equal(ip.as_str(), &ignored) && !zero_net {
            out.push(clone_vec(&ms[i]));
            proof {
                assert(views(out@) =~= kept_ips(views(ms@).take(i + 1)));
            }
        }
        i += 1;
    }
    proof {
        assert(views(ms@).take(ms@.len() as int) =~= views(ms@));
    }
    out
}

fn with_suffix(prefix: Vec<char>, suffix: &str) -> (r: String)
    ensures
        r@ == prefix@ + suffix@,
{
    let mut p = prefix;
    let mut s = chars_of(suffix);
    p.append(&mut s);
    string_of(p.as_slice())
}

fn is_autostart_exec(k: &Vec<char>) -> (r: bool)
    ensures
        r == is_autostart_key(k@),
{
    let s = string_of(k.as_slice());
    let lower = chars_of(to_lowercase(s.as_str()).as_str());
    let run = chars_of("currentversion\\run");
    let winlogon = chars_of("winlogon");
    contains_chars(lower.as_slice(), run.as_slice()) || contains_chars(lower.as_slice(), winlogon.as_slice())
}

/// The indicators of the printable strings: each kind as its distinct
/// values in increasing order, capped, and the indicators they give.
pub open spec fn string_findings_hold(info: ExtractedIoCs, iocs: Seq<IoC>, data: Seq<u8>) -> bool {
    let text = ascii_strings(data);
    matches_findings_hold(info, iocs, found(re_url()@, text), found(re_ip()@, text), found(re_email()@, text),
        found(re_btc()@, text), found(re_onion()@, text), found(re_registry()@, text))
}

/// The indicators drawn from the matches of each pattern, in text order:
/// allow-listed URLs and trivial addresses left out, each kind as its
/// distinct values in increasing order and capped, and the indicators of
/// `string_iocs`.
pub open spec fn matches_findings_hold(
    info: ExtractedIoCs,
    iocs: Seq<IoC>,
    url_m: Seq<Seq<char>>,
    ip_m: Seq<Seq<char>>,
    email_m: Seq<Seq<char>>,
    btc_m: Seq<Seq<char>>,
    onion_m: Seq<Seq<char>>,
    registry_m: Seq<Seq<char>>,
) -> bool {
    let urls = distinct(kept_urls(url_m));
    let ips = distinct(kept_ips(ip_m));
    let emails = distinct(email_m);
    let btc = distinct(btc_m);
    let onion = distinct(onion_m);
    let registry = distinct(registry_m);
    &&& strings_view(info.urls@) == take_at_most(urls, 50)
    &&& strings_view(info.ips@) == take_at_most(ips, 30)
    &&& strings_view(info.emails@) == take_at_most(emails, 20)
    &&& strings_view(info.btc_wallets@) == take_at_most(btc, 10)
    &&& strings_view(info.onion_addresses@) == take_at_most(onion, 10)
    &&& strings_view(info.registry_keys@) == take_at_most(registry, 20)
    &&& iocs_view(iocs) == string_iocs(urls, btc, onion, registry)
}

/// The extracted values are each in increasing order, without repeats, and
/// capped.
pub open spec fn findings_sorted(info: ExtractedIoCs) -> bool {
    &&& strictly_sorted(strings_view(info.urls@)) && info.urls@.len() <= 50
    &&& strictly_sorted(strings_view(info.ips@)) && info.ips@.len() <= 30
    &&& strictly_sorted(strings_view(info.emails@)) && info.emails@.len() <= 20
    &&& strictly_sorted(strings_view(info.btc_wallets@)) && info.btc_wallets@.len() <= 10
    &&& strictly_sorted(strings_view(info.onion_addresses@)) && info.onion_addresses@.len() <= 10
    &&& strictly_sorted(strings_view(info.registry_keys@)) && info.registry_keys@.len() <= 20
}

/// Extracts the indicators of the printable strings: each kind as its
/// distinct values in increasing order, capped (50 URLs, 30 addresses, 20
/// e-mails, 10 wallets, 10 onion addresses, 20 registry keys), and the
/// indicators that the onion addresses, wallets, URL count and autostart
/// keys give.
pub fn extract_iocs(data: &[u8]) -> (r: (ExtractedIoCs, Vec<IoC>))
    ensures
        string_findings_hold(r.0, r.1@, data@),
        findings_sorted(r.0),
{
    let text = extract_ascii_strings(data);
    let text = text.as_str();
    let url_m = find_all(r#"https?://[A-Za-z0-9\-._~:/?#\[\]@!$&'()*+,;=%]{8,200}"#, text);
    let ip_m = find_all(r"\b((25[0-5]|2[0-4]\d|1\d\d|[1-9]?\d)\.){3}(25[0-5]|2[0-4]\d|1\d\d|[1-9]?\d)\b", text);
    let email_m = find_all(r"\b[A-Za-z0-9._%+-]+@[A-Za-z0-9.-]+\.[A-Za-z]{2,}\b", text);
    let btc_m = find_all(r"\b(bc1[a-z0-9]{25,90}|[13][a-km-zA-HJ-NP-Z1-9]{25,34})\b", text);
    let onion_m = find_all(r"\b[a-z2-7]{16,56}\.onion\b", text);
    let registry_m = find_all(r"(?i)(HKEY_[A-Z_]+|HKLM|HKCU|HKCR)\\[\w\\ .\-()%{}]{3,120}", text);
    iocs_from_matches(&url_m, &ip_m, &email_m, &btc_m, &onion_m, &registry_m)
}

/// The indicators drawn from the matches of each pattern (URL, address,
/// e-mail, wallet, onion address, registry key), in text order.
pub fn iocs_from_matches(
    url_m: &Vec<Vec<char>>,
    ip_m: &Vec<Vec<char>>,
    emails_raw: &Vec<Vec<char>>,
    btc_raw: &Vec<Vec<char>>,
    onion_raw: &Vec<Vec<char>>,
    registry_raw: &Vec<Vec<char>>,
) -> (r: (ExtractedIoCs, Vec<IoC>))
    ensures
        matches_findings_hold(r.0, r.1@, views(url_m@), views(ip_m@), views(emails_raw@), views(btc_raw@),
            views(onion_raw@), views(registry_raw@)),
        findings_sorted(r.0),
{
    let urls_raw = filter_urls(url_m);
    let ips_raw = filter_ips(ip_m);
    let urls = sorted_set(&urls_raw);
    let btc = sorted_set(&btc_raw);
    let onion = sorted_set(&onion_raw);
    let registry = sorted_set(&registry_raw);

    let ghost uv = views(urls@);
    let ghost bv = views(btc@);
    let ghost ov = views(onion@);
    let mut ioc_list: Vec<IoC> = Vec::new();
    if onion.len() > 0 {
        let first = string_of(onion[0].as_slice());
        let desc = with_suffix(decimal_chars(onion.len()), " adresse(s) .onion — communication Tor cachée");
        ioc_list.push(IoC::new("Réseau Tor", first.as_str(), Severity::High, desc.as_str()));
    }
    let ghost a = iocs_view(ioc_list@);
    proof {
        if ov.len() > 0 {
            assert(a =~= seq![("Réseau Tor"@, ov[0], Severity::High,
                decimal(ov.len()) + " adresse(s) .onion — communication Tor cachée"@)]);
        } else {
            assert(a =~= Seq::<(Seq<char>, Seq<char>, Severity, Seq<char>)>::empty());
        }
    }
    if btc.len() > 0 {
        let first = string_of(btc[0].as_slice());
        let desc = with_suffix(decimal_chars(btc.len()), " adresse(s) Bitcoin — possible ransomware/mineur");
        ioc_list.push(IoC::new("Crypto wallet", first.as_str(), Severity::Medium, desc.as_str()));
        proof {
            assert(iocs_view(ioc_list@) =~= a.push(("Crypto wallet"@, bv[0], Severity::Medium,
                decimal(bv.len()) + " adresse(s) Bitcoin — possible ransomware/mineur"@)));
        }
    }
    let ghost b = iocs_view(ioc_list@);
    if urls.len() > 10 {
        let value = with_suffix(decimal_chars(urls.len()), " URLs");
        ioc_list.push(IoC::new("Réseau", value.as_str(), Severity::Low, "Nombre élevé d'URLs embarquées"));
        proof {
            assert(iocs_view(ioc_list@) =~= b.push(("Réseau"@, decimal(uv.len()) + " URLs"@, Severity::Low,
                "Nombre élevé d'URLs embarquées"@)));
        }
    }
    let ghost before_registry = iocs_view(ioc_list@);
    let ghost rv = views(registry@);
    let mut k: usize = 0;
    while k < registry.len()
        invariant_except_break
            iocs_view(ioc_list@) == before_registry,
        invariant
            rv == views(registry@),
            k <= registry@.len(),
            first_autostart(rv, 0) == first_autostart(rv, k as nat),
        ensures
            iocs_view(ioc_list@) == match first_autostart(rv, 0) {
                Some(i) => before_registry.push(("Persistance"@, take_at_most(rv[i as int], 80), Severity::Medium,
                    "Référence à une clé de démarrage automatique"@)),
                None => before_registry,
            },
        decreases registry@.len() - k,
    {
        if is_autostart_exec(&registry[k]) {
            let key = string_of(registry[k].as_slice());
            let value = take_chars(key.as_str(), 80);
            ioc_list.push(IoC::new("Persistance", value.as_str(), Severity::Medium,
                "Référence à une clé de démarrage automatique"));
            proof {
                assert(iocs_view(ioc_list@) =~= before_registry.push(("Persistance"@, take_at_most(rv[k as int], 80),
                    Severity::Medium, "Référence à une clé de démarrage automatique"@)));
            }
            break;
        }
        k += 1;
    }

    let info = ExtractedIoCs {
        urls: dedup_take(&urls_raw, 50),
        ips: dedup_take(&ips_raw, 30),
        emails: dedup_take(&emails_raw, 20),
        btc_wallets: dedup_take(&btc_raw, 10),
        onion_addresses: dedup_take(&onion_raw, 10),
        registry_keys: dedup_take(&registry_raw, 20),
    };
    proof {
        assert(iocs_view(ioc_list@) =~= string_iocs(views(urls@), views(btc@), views(onion@), rv));
    }
    (info, ioc_list)
}

/// In the indicators of the string kinds, one has the type `Réseau` exactly
/// when there are more than ten URLs, and that one reports their number.
proof fn network_indicator_of_string_iocs(
    urls: Seq<Seq<char>>,
    btc: Seq<Seq<char>>,
    onion: Seq<Seq<char>>,
    registry: Seq<Seq<char>>,
)
    ensures
        forall|i: int| 0 <= i < string_iocs(urls, btc, onion, registry).len()
            && (#[trigger] string_iocs(urls, btc, onion, registry)[i]).0 == "Réseau"@ ==> urls.len() > 10,
        urls.len() > 10 ==> exists|i: int| 0 <= i < string_iocs(urls, btc, onion, registry).len()
            && #[trigger] string_iocs(urls, btc, onion, registry)[i]
                == ("Réseau"@, decimal(urls.len()) + " URLs"@, Severity::Low, "Nombre élevé d'URLs embarquées"@),
{
    reveal_strlit("Réseau");
    reveal_strlit("Réseau Tor");
    reveal_strlit("Crypto wallet");
    reveal_strlit("Persistance");
    assert("Réseau"@.len() == 6);
    assert("Réseau Tor"@.len() == 10);
    assert("Crypto wallet"@.len() == 13);
    assert("Persistance"@.len() == 11);
    let t = string_iocs(urls, btc, onion, registry);
    let a: Seq<(Seq<char>, Seq<char>, Severity, Seq<char>)> = if onion.len() > 0 {
        seq![("Réseau Tor"@, onion[0], Severity::High,
            decimal(onion.len()) + " adresse(s) .onion — communication Tor cachée"@)]
    } else {
        seq![]
    };
    let b = if btc.len() > 0 {
        a.push(("Crypto wallet"@, btc[0], Severity::Medium,
            decimal(btc.len()) + " adresse(s) Bitcoin — possible ransomware/mineur"@))
    } else {
        a
    };
    let net = ("Réseau"@, decimal(urls.len()) + " URLs"@, Severity::Low, "Nombre élevé d'URLs embarquées"@);
    let c = if urls.len() > 10 { b.push(net) } else { b };
    assert forall|i: int| 0 <= i < b.len() implies b[i].0 != "Réseau"@ by {
        if onion.len() > 0 && i == 0 {
            assert(b[i].0 == "Réseau Tor"@);
        } else {
            assert(b[i].0 == "Crypto wallet"@);
        }
    }
    assert(forall|i: int| 0 <= i < c.len() && c[i].0 == "Réseau"@ ==> urls.len() > 10);
    match first_autostart(registry, 0) {
        Some(k) => {
            let last = ("Persistance"@, take_at_most(registry[k as int], 80), Severity::Medium,
                "Référence à une clé de démarrage automatique"@);
            assert(t == c.push(last));
            assert(last.0 != "Réseau"@);
            if urls.len() > 10 {
                assert(t[b.len() as int] == net);
            }
        },
        None => {
            assert(t == c);
            if urls.len() > 10 {
                assert(t[b.len() as int] == net);
            }
        },
    }
}

/// The URL-count indicator: the indicators that extraction gives hold one
/// of type `Réseau` exactly when more than ten distinct URLs were kept, and
/// that one gives their number (`N URLs`) with low severity.
pub proof fn url_count_indicator(
    info: ExtractedIoCs,
    iocs: Seq<IoC>,
    url_m: Seq<Seq<char>>,
    ip_m: Seq<Seq<char>>,
    email_m: Seq<Seq<char>>,
    btc_m: Seq<Seq<char>>,
    onion_m: Seq<Seq<char>>,
    registry_m: Seq<Seq<char>>,
)
    requires
        matches_findings_hold(info, iocs, url_m, ip_m, email_m, btc_m, onion_m, registry_m),
    ensures
        (exists|i: int| 0 <= i < iocs.len() && #[trigger] iocs[i].ioc_type@ == "Réseau"@)
            <==> distinct(kept_urls(url_m)).len() > 10,
        distinct(kept_urls(url_m)).len() > 10 ==> exists|i: int| 0 <= i < iocs.len()
            && #[trigger] iocs[i].ioc_type@ == "Réseau"@
            && iocs[i].value@ == decimal(distinct(kept_urls(url_m)).len()) + " URLs"@
            && iocs[i].severity == Severity::Low,
{
    let urls = distinct(kept_urls(url_m));
    let btc = distinct(btc_m);
    let onion = distinct(onion_m);
    let registry = distinct(registry_m);
    let t = string_iocs(urls, btc, onion, registry);
    network_indicator_of_string_iocs(urls, btc, onion, registry);
    assert(iocs_view(iocs) == t);
    assert(iocs.len() == t.len());
    assert forall|i: int| 0 <= i < iocs.len() implies ioc_view(#[trigger] iocs[i]) == t[i] by {
        assert(iocs_view(iocs)[i] == ioc_view(iocs[i]));
    }
    if exists|i: int| 0 <= i < iocs.len() && #[trigger] iocs[i].ioc_type@ == "Réseau"@ {
        let i = choose|i: int| 0 <= i < iocs.len() && #[trigger] iocs[i].ioc_type@ == "Réseau"@;
        assert(ioc_view(iocs[i]) == t[i]);
    }
    if urls.len() > 10 {
        let i = choose|i: int| 0 <= i < t.len() && #[trigger] t[i]
            == ("Réseau"@, decimal(urls.len()) + " URLs"@, Severity::Low, "Nombre élevé d'URLs embarquées"@);
        assert(ioc_view(iocs[i]) == t[i]);
        assert(iocs[i].ioc_type@ == "Réseau"@);
    }
}

} // verus!
