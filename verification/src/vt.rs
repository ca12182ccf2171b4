//! The decisions around a lookup in the online multi-engine reputation
//! service: what is checked before a request, how a reply status is read,
//! when and how long to wait after the service asks to slow down, and the
//! report built from the figures of a reply.

use vstd::prelude::*;
use chrono::TimeZone;
use crate::text::{chars_of, decimal, decimal_chars, string_of};
use crate::types::{strings_view, ScanError, VtResult};

verus! {

/// Base address of the service's programming interface.
pub const VT_API_BASE: &'static str = "https://www.virustotal.com/api/v3";

/// How many requests a lookup makes at most.
pub const MAX_RETRIES: u32 = 3;

/// A lower-case hexadecimal digit.
pub open spec fn is_hex_digit(c: char) -> bool {
    ('0' <= c && c <= '9') || ('a' <= c && c <= 'f')
}

/// Text that can be a SHA-256 digest: 64 lower-case hexadecimal digits.
pub open spec fn is_sha256_text(s: Seq<char>) -> bool {
    s.len() == 64 && forall|i: int| 0 <= i < 64 ==> #[trigger] is_hex_digit(s[i])
}

/// A lower-case hexadecimal digit.
fn hex_digit(c: char) -> (r: bool)
    ensures
        r == is_hex_digit(c),
{
    ('0' <= c && c <= '9') || ('a' <= c && c <= 'f')
}

/// The checks made before a request: the key must not be empty, and the
/// digest must be 64 lower-case hexadecimal digits.
pub fn check_lookup_input(sha256: &str, api_key: &str) -> (r: Result<(), ScanError>)
    ensures
        api_key@.len() == 0 ==> (r matches Err(ScanError::Internal(m)) && m@ == "Clé API absente"@),
        api_key@.len() != 0 && !is_sha256_text(sha256@)
            ==> (r matches Err(ScanError::Internal(m)) && m@ == "Hash SHA-256 invalide"@),
        api_key@.len() != 0 && is_sha256_text(sha256@) ==> r is Ok,
{
    if api_key.is_empty() {
        return Err(ScanError::Internal("Clé API absente".to_owned()));
    }
    let cs = chars_of(sha256);
    let mut ok = cs.len() == 64;
    let mut i: usize = 0;
    while ok && i < cs.len()
        invariant
            cs@ == sha256@,
            i <= cs@.len(),
            ok ==> cs@.len() == 64,
            ok ==> forall|k: int| 0 <= k < i ==> #[trigger] is_hex_digit(cs@[k]),
            !ok ==> !is_sha256_text(sha256@),
        decreases cs@.len() - i,
    {
        if !hex_digit(cs[i]) {
            ok = false;
        }
        i += 1;
    }
    if ok {
        Ok(())
    } else {
        Err(ScanError::Internal("Hash SHA-256 invalide".to_owned()))
    }
}

/// The error that a reply status stands for: 429 asks to slow down, 404
/// means the file is unknown to the service, any other status from 400 up
/// is a failure; below 400 the reply is read.
pub fn status_error(status: u16) -> (r: Option<ScanError>)
    ensures
        status == 429 ==> r matches Some(ScanError::RateLimited),
        status == 404 ==> (r matches Some(ScanError::Internal(m)) && m@ == "Fichier inconnu de VirusTotal"@),
        status != 429 && status != 404 && status >= 400 ==> (r matches Some(ScanError::Internal(m))
            && m@ == "VirusTotal API erreur HTTP "@ + decimal(status as nat)),
        status < 400 ==> r is None,
{
    if status == 429 {
        Some(ScanError::RateLimited)
    } else if status == 404 {
        Some(ScanError::Internal("Fichier inconnu de VirusTotal".to_owned()))
    } else if status >= 400 {
        let mut msg = chars_of("VirusTotal API erreur HTTP ");
        let mut digits = decimal_chars(status as usize);
        msg.append(&mut digits);
        Some(ScanError::Internal(string_of(msg.as_slice())))
    } else {
        None
    }
}

/// The wait before the request that follows attempt `attempt` (counted
/// from 0): 500 ms, doubled at each further attempt.
pub open spec fn backoff_ms(attempt: nat) -> nat
    decreases attempt,
{
    if attempt == 0 { 500 } else { 2 * backoff_ms((attempt - 1) as nat) }
}

/// After attempt `attempt` failed with `err`: the wait before trying again,
/// or `None` to give up with that error. Only a request to slow down is
/// retried, and never after the last allowed attempt.
pub fn retry_delay(attempt: u32, err: &ScanError) -> (r: Option<u64>)
    ensures
        r is Some <==> (*err is RateLimited && attempt + 1 < MAX_RETRIES),
        r matches Some(d) ==> d == backoff_ms(attempt as nat),
{
    let limited = match err {
        ScanError::RateLimited => true,
        _ => false,
    };
    if limited && attempt < MAX_RETRIES - 1 {
        let mut d: u64 = 500;
        let mut i: u32 = 0;
        while i < attempt
            invariant
                i <= attempt,
                attempt < 2,
                d == backoff_ms(i as nat),
            decreases attempt - i,
        {
            d = d * 2;
            i += 1;
        }
        Some(d)
    } else {
        None
    }
}

/// One engine's result in a reply: its category and, if it names one, the
/// detection.
pub struct EngineVerdict {
    pub category: String,
    pub result: Option<String>,
}

/// The detection names of the engines whose category is "malicious" and
/// that name one, in the order given.
pub open spec fn malicious_names(e: Seq<EngineVerdict>) -> Seq<Seq<char>>
    decreases e.len(),
{
    if e.len() == 0 {
        seq![]
    } else {
        let last = e.last();
        malicious_names(e.drop_last()) + if last.category@ == "malicious"@ && last.result is Some {
            seq![last.result->0@]
        } else {
            seq![]
        }
    }
}

/// The first fifteen items of a sequence (all of them if fewer).
pub open spec fn first_fifteen(s: Seq<Seq<char>>) -> Seq<Seq<char>> {
    if s.len() <= 15 { s } else { s.take(15) }
}

/// Counts of the engines' categories in a reply.
pub struct VtStats {
    pub malicious: u32,
    pub suspicious: u32,
    pub undetected: u32,
    pub harmless: u32,
}

/// The engines that counted in a reply.
pub open spec fn stats_total(s: VtStats) -> int {
    s.malicious + s.suspicious + s.undetected + s.harmless
}

/// The address of a file's page on the service.
pub open spec fn permalink_of(sha256: Seq<char>) -> Seq<char> {
    "https://www.virustotal.com/gui/file/"@ + sha256
}

/// The minute of a Unix timestamp, written as chrono writes
/// `%Y-%m-%d %H:%M UTC`; `None` when chrono cannot represent the instant.
pub uninterp spec fn utc_minute_text_of(ts: i64) -> Option<Seq<char>>;

/// Calls chrono's `Utc.timestamp_opt(ts, 0)`, and formats the instant it
/// gives with `%Y-%m-%d %H:%M UTC`. The contract names the text rather
/// than restating the calendar arithmetic; it is a function of `ts` alone.
#[verifier::external_body]
fn utc_minute_text(ts: i64) -> (r: Option<String>)
    ensures
        r is Some <==> utc_minute_text_of(ts) is Some,
        r matches Some(s) ==> s@ == utc_minute_text_of(ts)->0,
{
    let dt = chrono::Utc.timestamp_opt(ts, 0).single()?;
    Some(dt.format("%Y-%m-%d %H:%M UTC").to_string())
}

/// The date of the last analysis as the report writes it: empty when the
/// reply has none or chrono cannot represent it.
pub open spec fn scan_date_of(analysis_date: Option<i64>) -> Seq<char> {
    match analysis_date {
        Some(ts) => match utc_minute_text_of(ts) {
            Some(t) => t,
            None => seq![],
        },
        None => seq![],
    }
}

/// The date of the last analysis as the report writes it.
pub fn scan_date_text(analysis_date: Option<i64>) -> (r: String)
    ensures
        r@ == scan_date_of(analysis_date),
{
    match analysis_date {
        Some(ts) => match utc_minute_text(ts) {
            Some(t) => t,
            None => String::new(),
        },
        None => String::new(),
    }
}

/// The detection names of a reply: those of the engines that found the
/// file malicious and name it, at most fifteen, in the order given.
pub fn detection_names(engines: &Vec<EngineVerdict>) -> (r: Vec<String>)
    ensures
        strings_view(r@) == first_fifteen(malicious_names(engines@)),
{
    let mut out: Vec<String> = Vec::new();
    let mut i: usize = 0;
    while i < engines.len()
        invariant
            i <= engines@.len(),
            strings_view(out@) == first_fifteen(malicious_names(engines@.take(i as int))),
        decreases engines@.len() - i,
    {
        let e = &engines[i];
        proof {
            assert(engines@.take(i as int + 1).drop_last() =~= engines@.take(i as int));
            assert(engines@.take(i as int + 1).last() == engines@[i as int]);
        }
        let ghost m = malicious_names(engines@.take(i as int));
        if crate::text::str_eq(e.category.as_str(), "malicious") {
            if let Some(name) = &e.result {
                if out.len() < 15 {
                    proof {
                        assert(strings_view(out@).len() == out@.len());
                        assert(m.len() < 15);
                        assert(strings_view(out@) == m);
                    }
                    let ghost before = out@;
                    out.push(name.clone());
                    proof {
                        assert(out@ == before.push(*name));
                        assert(strings_view(out@) =~= strings_view(before).push(name@));
                        assert(strings_view(out@) =~= first_fifteen(m + seq![name@]));
                    }
                } else {
                    proof {
                        assert((m + seq![name@]).take(15) =~= m.take(15));
                    }
                }
            } else {
                proof { assert(m + seq![] =~= m); }
            }
        } else {
            proof { assert(m + seq![] =~= m); }
        }
        i += 1;
    }
    proof { assert(engines@.take(engines@.len() as int) =~= engines@); }
    out
}

/// The report of a reply: the malicious count, the number of engines that
/// counted, the file's page, the date of the last analysis and the
/// detection names.
pub fn vt_result_from(sha256: &str, stats: &VtStats, engines: &Vec<EngineVerdict>, analysis_date: Option<i64>) -> (r: VtResult)
    requires
        stats_total(*stats) <= u32::MAX,
    ensures
        r.positives == stats.malicious,
        r.total == stats_total(*stats),
        r.permalink@ == permalink_of(sha256@),
        r.scan_date@ == scan_date_of(analysis_date),
        strings_view(r.detection_names@) == first_fifteen(malicious_names(engines@)),
{
    let total = stats.malicious + stats.suspicious + stats.undetected + stats.harmless;
    let mut link = chars_of("https://www.virustotal.com/gui/file/");
    let mut digest = chars_of(sha256);
    link.append(&mut digest);
    VtResult {
        positives: stats.malicious,
        total,
        permalink: string_of(link.as_slice()),
        scan_date: scan_date_text(analysis_date),
        detection_names: detection_names(engines),
    }
}

} // verus!
