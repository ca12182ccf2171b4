//! The scan of one file, in two steps around the work that needs floating
//! point or the network: `plan_scan` fingerprints and classifies the file
//! (and parses it when it is an executable); the caller then measures
//! entropy and asks the online reputation service; `finish_scan` runs the
//! analyzers, the pattern rules and the signature lookup, and scores the
//! whole.

use vstd::prelude::*;
use crate::archive::{analyze_zip, zip_readable, zip_summary_holds};
use crate::binary::{analyze_binary, binary_findings_hold, parse, parse_holds, BinaryLayout};
use crate::clamav::ClamavDb;
use crate::hash::{compute, hex_lower, md5_of, sha1_of, sha256_of, sha512_of};
use crate::lnk::lnk_findings_hold;
use crate::mime::{categorize, category_name, category_of, detect, mime_of, FileCategory};
use crate::pdf::pdf_findings_hold;
use crate::score::{compute_score, determine_verdict, known_malware_is_malicious, score_of, verdict_of};
use crate::strings::{extract_iocs, string_findings_hold};
use crate::text::chars_of;
use crate::types::{
    iocs_view, ArchiveInfo, BinaryInfo, ClamavResult, EntropyLevel, ExtractedIoCs, Hashes, IoC, LnkInfo,
    PdfInfo, ScanError, ScriptInfo, Severity, Verdict, VtResult, YaraMatch,
};
use crate::yara::{match_view, scan_matches, YaraEngine};

verus! {

/// What the scan draws on besides the file: the signature database, if
/// loaded, and the key of the online reputation service (empty when it is
/// not used).
pub struct ScanContext<'a> {
    pub clamav: Option<&'a ClamavDb>,
    pub vt_api_key: &'a str,
}

/// The online reputation service is asked only when a key for it is
/// configured.
pub fn reputation_lookup_wanted(ctx: &ScanContext) -> (r: bool)
    ensures
        r == (ctx.vt_api_key@.len() > 0),
{
    !ctx.vt_api_key.is_empty()
}

/// The first step of a scan: fingerprints, media type, category, and the
/// executable layout when the category is an executable one.
pub struct ScanPlan {
    pub hashes: Hashes,
    pub mime_type: String,
    pub category: FileCategory,
    pub binary: Option<Result<BinaryLayout, ScanError>>,
}

/// The report of a scan (the entropy figures and the date are the
/// caller's).
pub struct ScanResult {
    pub file_name: String,
    pub file_size: u64,
    pub mime_type: String,
    pub category: String,
    pub hashes: Hashes,
    pub verdict: Verdict,
    pub verdict_score: u8,
    pub binary_info: Option<BinaryInfo>,
    pub script_info: Option<ScriptInfo>,
    pub archive_info: Option<ArchiveInfo>,
    pub pdf_info: Option<PdfInfo>,
    pub lnk_info: Option<LnkInfo>,
    pub extracted_iocs: ExtractedIoCs,
    pub virustotal: Option<VtResult>,
    pub clamav: Option<ClamavResult>,
    pub yara_matches: Vec<YaraMatch>,
    pub ioc_list: Vec<IoC>,
}

/// A reference to the content of an option.
pub open spec fn opt_ref<T>(o: &Option<T>) -> Option<&T> {
    match o {
        Some(x) => Some(x),
        None => None,
    }
}

/// An executable category.
pub open spec fn is_executable_category(c: FileCategory) -> bool {
    c == FileCategory::Pe || c == FileCategory::Elf || c == FileCategory::MachO
}

/// The first step of a scan, as `plan_scan` makes it.
pub open spec fn plan_holds(plan: ScanPlan, data: Seq<u8>, file_name: Seq<char>) -> bool {
    &&& plan.hashes.md5@ == hex_lower(md5_of(data))
    &&& plan.hashes.sha1@ == hex_lower(sha1_of(data))
    &&& plan.hashes.sha256@ == hex_lower(sha256_of(data))
    &&& plan.hashes.sha512@ == hex_lower(sha512_of(data))
    &&& plan.mime_type@ == mime_of(data, file_name)
    &&& plan.category == category_of(plan.mime_type@, data, file_name)
    &&& plan.binary is Some <==> is_executable_category(plan.category)
    &&& plan.binary matches Some(b) ==> parse_holds(b, data)
}

/// Fingerprints and classifies a file, and parses it when it is an
/// executable.
pub fn plan_scan(raw_bytes: &[u8], file_name: &str) -> (plan: ScanPlan)
    ensures
        plan_holds(plan, raw_bytes@, file_name@),
{
    let hashes = compute(raw_bytes);
    let mime_type = detect(raw_bytes, file_name);
    let category = categorize(mime_type.as_str(), raw_bytes, file_name);
    let binary = match category {
        FileCategory::Pe | FileCategory::Elf | FileCategory::MachO => Some(parse(raw_bytes)),
        _ => None,
    };
    ScanPlan { hashes, mime_type, category, binary }
}

/// The signature hit for the digests: the MD5 table first, then the SHA-256
/// one; the malware name and the table's label.
pub open spec fn clamav_hit_of(db: Option<&ClamavDb>, md5: Seq<char>, sha256: Seq<char>) -> Option<(Seq<char>, Seq<char>)> {
    match db {
        None => None,
        Some(d) => if d.md5_names().contains_key(md5) {
            Some((d.md5_names()[md5], "ClamAV/MD5"@))
        } else if d.sha256_names().contains_key(sha256) {
            Some((d.sha256_names()[sha256], "ClamAV/SHA256"@))
        } else {
            None
        },
    }
}

/// The indicator of a signature hit.
pub open spec fn clamav_iocs(hit: Option<(Seq<char>, Seq<char>)>) -> Seq<(Seq<char>, Seq<char>, Severity, Seq<char>)> {
    match hit {
        Some(h) => seq![("ClamAV"@, h.0, Severity::Critical, "Détecté par "@ + h.1 + " (base ClamAV)"@)],
        None => seq![],
    }
}

/// How many specialised analyzers (executable, script, archive, PDF,
/// shortcut) reported on the file.
pub open spec fn analyzer_reports(r: ScanResult) -> nat {
    (if r.binary_info is Some { 1nat } else { 0nat }) + (if r.script_info is Some { 1nat } else { 0nat })
        + (if r.archive_info is Some { 1nat } else { 0nat }) + (if r.pdf_info is Some { 1nat } else { 0nat })
        + (if r.lnk_info is Some { 1nat } else { 0nat })
}

/// The analyzer of the file's category found `info` and the indicators `a`.
pub open spec fn category_findings_hold(
    plan: ScanPlan,
    r: ScanResult,
    a: Seq<IoC>,
    data: Seq<u8>,
    binary_entropy: Option<(EntropyLevel, String)>,
) -> bool {
    &&& r.script_info is None
    &&& (r.binary_info is Some <==> plan.binary matches Some(Ok(_)))
    &&& (r.pdf_info is Some <==> !(plan.binary matches Some(Ok(_))) && plan.category == FileCategory::Pdf)
    &&& (r.lnk_info is Some <==> !(plan.binary matches Some(Ok(_))) && plan.category == FileCategory::Lnk)
    &&& (r.archive_info is Some ==> !(plan.binary matches Some(Ok(_)))
        && (plan.category == FileCategory::Archive || plan.category == FileCategory::OfficeDoc))
    &&& match plan.binary {
        Some(Ok(layout)) => binary_findings_hold(r.binary_info->0, a, layout, data, binary_entropy.unwrap().0,
            binary_entropy.unwrap().1@),
        _ => match plan.category {
            FileCategory::Pdf => pdf_findings_hold(r.pdf_info->0, a, data),
            FileCategory::Lnk => lnk_findings_hold(r.lnk_info->0, a, data),
            FileCategory::Archive => if zip_readable(data) {
                r.archive_info is Some && zip_summary_holds(r.archive_info->0, a, data, "ZIP"@)
            } else {
                r.archive_info is None && a.len() == 0
            },
            FileCategory::OfficeDoc => if zip_readable(data) {
                r.archive_info is Some && zip_summary_holds(r.archive_info->0, a, data, "Office OOXML"@)
            } else {
                r.archive_info is None && a.len() == 0
            },
            _ => a.len() == 0,
        },
    }
}

/// Runs the analyzer of the category, the indicator extraction, the pattern
/// rules and the signature lookup, then scores the findings.
/// `binary_entropy` is the band and the two-decimal figure of the largest
/// section entropy (of the whole file for an unreadable universal Mach-O);
/// `vt` is the reply of the online reputation service, if any; it is kept
/// only when a key for the service is configured.
pub fn finish_scan(
    raw_bytes: &[u8],
    file_name: &str,
    plan: ScanPlan,
    binary_entropy: Option<(EntropyLevel, String)>,
    ctx: &ScanContext,
    engine: &YaraEngine,
    vt: Option<VtResult>,
) -> (r: ScanResult)
    requires
        plan.binary matches Some(Ok(_)) ==> binary_entropy is Some,
    ensures
        r.file_name@ == file_name@,
        r.file_size == raw_bytes@.len(),
        r.mime_type@ == plan.mime_type@,
        r.category@ == category_name(plan.category),
        r.hashes.md5@ == plan.hashes.md5@ && r.hashes.sha1@ == plan.hashes.sha1@
            && r.hashes.sha256@ == plan.hashes.sha256@ && r.hashes.sha512@ == plan.hashes.sha512@,
        r.virustotal == (if ctx.vt_api_key@.len() == 0 { None } else { vt }),
        r.yara_matches@.map_values(|m: YaraMatch| match_view(m)) == scan_matches(raw_bytes@, engine.rule_set()),
        match clamav_hit_of(ctx.clamav, plan.hashes.md5@, plan.hashes.sha256@) {
            Some(h) => r.clamav matches Some(c) && c.malware_name@ == h.0 && c.database@ == h.1,
            None => r.clamav is None,
        },
        exists|a: Seq<IoC>, b: Seq<IoC>|
            #![trigger category_findings_hold(plan, r, a, raw_bytes@, binary_entropy), string_findings_hold(r.extracted_iocs, b, raw_bytes@)]
            category_findings_hold(plan, r, a, raw_bytes@, binary_entropy)
            && string_findings_hold(r.extracted_iocs, b, raw_bytes@)
            && iocs_view(r.ioc_list@) == iocs_view(a) + iocs_view(b)
                + clamav_iocs(clamav_hit_of(ctx.clamav, plan.hashes.md5@, plan.hashes.sha256@)),
        r.verdict_score as nat == score_of(
            opt_ref(&r.binary_info),
            opt_ref(&r.script_info),
            opt_ref(&r.archive_info),
            opt_ref(&r.pdf_info),
            opt_ref(&r.lnk_info),
            opt_ref(&r.virustotal),
            r.yara_matches@,
            r.clamav is Some,
            r.extracted_iocs,
        ),
        r.verdict == verdict_of(r.verdict_score as nat),
        r.verdict_score <= 100,
        analyzer_reports(r) <= 1,
        r.clamav is Some || (r.virustotal matches Some(v) && v.positives >= 3) ==> r.verdict == Verdict::Malicious,
{
    let vt = if reputation_lookup_wanted(ctx) { vt } else { None };
    let file_size = raw_bytes.len() as u64;
    let mut binary_info: Option<BinaryInfo> = None;
    let mut archive_info: Option<ArchiveInfo> = None;
    let mut pdf_info: Option<PdfInfo> = None;
    let mut lnk_info: Option<LnkInfo> = None;
    let mut ioc_list: Vec<IoC> = Vec::new();

    match &plan.binary {
        Some(Ok(layout)) => {
            let (level, text) = match &binary_entropy {
                Some(e) => (e.0, e.1.as_str()),
                None => (EntropyLevel::Normal, ""),
            };
            let (info, iocs) = analyze_binary(layout, raw_bytes, level, text);
            ioc_list = iocs;
            binary_info = Some(info);
        },
        _ => match plan.category {
            FileCategory::Archive => {
                if let Some((info, iocs)) = analyze_zip(raw_bytes, "ZIP") {
                    ioc_list = iocs;
                    archive_info = Some(info);
                }
            },
            FileCategory::OfficeDoc => {
                if let Some((info, iocs)) = analyze_zip(raw_bytes, "Office OOXML") {
                    ioc_list = iocs;
                    archive_info = Some(info);
                }
            },
            FileCategory::Pdf => {
                let (info, iocs) = crate::pdf::analyze(raw_bytes);
                ioc_list = iocs;
                pdf_info = Some(info);
            },
            FileCategory::Lnk => {
                let (info, iocs) = crate::lnk::analyze(raw_bytes);
                ioc_list = iocs;
                lnk_info = Some(info);
            },
            _ => {},
        },
    }
    let ghost a = ioc_list@;

    let (extracted_iocs, string_iocs) = extract_iocs(raw_bytes);
    let ghost b = string_iocs@;
    let mut string_iocs = string_iocs;
    ioc_list.append(&mut string_iocs);

    let yara_matches = engine.scan(raw_bytes);

    let hit = match ctx.clamav {
        Some(db) => match db.check_md5(plan.hashes.md5.as_str()) {
            Some(m) => Some(m),
            None => db.check_sha256(plan.hashes.sha256.as_str()),
        },
        None => None,
    };
    let clamav = match hit {
        Some(m) => {
            let mut desc = chars_of("Détecté par ");
            let mut db_name = chars_of(m.database.as_str());
            let mut tail = chars_of(" (base ClamAV)");
            desc.append(&mut db_name);
            desc.append(&mut tail);
            let desc_s = crate::text::string_of(desc.as_slice());
            ioc_list.push(IoC::new("ClamAV", m.malware_name.as_str(), Severity::Critical, desc_s.as_str()));
            Some(ClamavResult { malware_name: m.malware_name, database: m.database })
        },
        None => None,
    };

    let verdict_score = compute_score(
        binary_info.as_ref(),
        None,
        archive_info.as_ref(),
        pdf_info.as_ref(),
        lnk_info.as_ref(),
        vt.as_ref(),
        yara_matches.as_slice(),
        clamav.is_some(),
        &extracted_iocs,
    );
    let verdict = determine_verdict(verdict_score);

    let r = ScanResult {
        file_name: file_name.to_owned(),
        file_size,
        mime_type: plan.mime_type,
        category: plan.category.as_str().to_owned(),
        hashes: plan.hashes,
        verdict,
        verdict_score,
        binary_info,
        script_info: None,
        archive_info,
        pdf_info,
        lnk_info,
        extracted_iocs,
        virustotal: vt,
        clamav,
        yara_matches,
        ioc_list,
    };
    proof {
        if r.clamav is Some || (r.virustotal is Some && r.virustotal->0.positives >= 3) {
            known_malware_is_malicious(
                opt_ref(&r.binary_info),
                opt_ref(&r.script_info),
                opt_ref(&r.archive_info),
                opt_ref(&r.pdf_info),
                opt_ref(&r.lnk_info),
                opt_ref(&r.virustotal),
                r.yara_matches@,
                r.clamav is Some,
                r.extracted_iocs,
            );
        }
        assert(iocs_view(r.ioc_list@) =~= iocs_view(a) + iocs_view(b)
            + clamav_iocs(clamav_hit_of(ctx.clamav, plan.hashes.md5@, plan.hashes.sha256@)));
        assert(category_findings_hold(plan, r, a, raw_bytes@, binary_entropy));
        assert(string_findings_hold(r.extracted_iocs, b, raw_bytes@));
    }
    r
}

} // verus!
