//! The aggregated risk score of a scan and the verdict drawn from it.

use vstd::prelude::*;
use crate::text::{
    any_contained, any_equal, chars_match_at, chars_of, contains_any, is_one_of, seq_starts_with,
};
use crate::types::{
    ArchiveInfo, BinaryInfo, EntropyLevel, ExtractedIoCs, LnkInfo, PdfInfo, ScriptInfo, Severity, Verdict,
    VtResult, YaraMatch,
};

verus! {

/// Adds `d` to a score, capped at 100.
pub open spec fn bump(s: nat, d: nat) -> nat {
    if s + d > 100 { 100 } else { s + d }
}

/// Lifts a score to at least `floor`.
pub open spec fn raise(s: nat, floor: nat) -> nat {
    if s >= floor { s } else { floor }
}

/// The smaller of two naturals.
pub open spec fn min_nat(a: nat, b: nat) -> nat {
    if a <= b { a } else { b }
}

/// Imports that weigh 20 points in the score.
pub open spec fn critical_import_markers() -> Seq<&'static str> {
    seq![
        "CreateRemoteThread", "WriteProcessMemory", "NtUnmapViewOfSection",
        "ZwUnmapViewOfSection", "QueueUserAPC", "ptrace", "memfd_create",
    ]
}

/// Imports that weigh 10 points in the score.
pub open spec fn high_import_markers() -> Seq<&'static str> {
    seq![
        "VirtualAllocEx", "SetWindowsHookEx", "URLDownloadToFile", "WinExec", "mprotect",
        "dlopen",
    ]
}

/// Macro keywords that make a VBA project dangerous.
pub open spec fn dangerous_vba_keywords() -> Seq<&'static str> {
    seq!["Shell", "WScript.Shell", "powershell", "cmd /c", "cmd.exe", "URLDownloadToFile", "XMLHTTP"]
}

/// Shortcut arguments that alone make a shortcut malicious.
pub open spec fn critical_lnk_args() -> Seq<&'static str> {
    seq!["-encodedcommand", "-enc ", "mshta", "certutil", "bitsadmin"]
}

/// Points that a rule match adds, by its severity.
pub open spec fn yara_weight(sev: Severity) -> nat {
    match sev {
        Severity::Critical => 35,
        Severity::High => 20,
        Severity::Medium => 10,
        Severity::Low => 5,
    }
}

/// Adds the weight of each rule match in turn, capped at 100 after each.
pub open spec fn yara_stage(s: nat, ms: Seq<YaraMatch>) -> nat
    decreases ms.len(),
{
    if ms.len() == 0 {
        s
    } else {
        bump(yara_stage(s, ms.drop_last()), yara_weight(ms.last().severity))
    }
}

/// Floor set by the count of engines that flag the file.
pub open spec fn vt_floor(positives: u32) -> nat {
    if positives >= 10 { 95 } else if positives >= 3 { 85 } else if positives >= 1 { 60 } else { 0 }
}

/// Points added by the entropy band of an executable.
pub open spec fn entropy_bonus(level: EntropyLevel) -> nat {
    match level {
        EntropyLevel::Extreme => 20,
        EntropyLevel::High => 10,
        EntropyLevel::Elevated => 5,
        EntropyLevel::Normal => 0,
    }
}

/// Weight of one suspicious import.
pub open spec fn import_weight(imp: Seq<char>) -> nat {
    if contains_any(imp, critical_import_markers()) {
        20
    } else if contains_any(imp, high_import_markers()) {
        10
    } else {
        0
    }
}

/// Sum of the weights of the imports.
pub open spec fn import_sum(imps: Seq<String>) -> nat
    decreases imps.len(),
{
    if imps.len() == 0 { 0 } else { import_sum(imps.drop_last()) + import_weight(imps.last()@) }
}

/// Score after the executable's findings.
pub open spec fn binary_stage(s: nat, bin: Option<&BinaryInfo>) -> nat {
    match bin {
        None => s,
        Some(b) => {
            let s1 = bump(s, entropy_bonus(b.entropy_level));
            if b.suspicious_imports@.len() > 0 {
                bump(s1, min_nat(import_sum(b.suspicious_imports@), 40))
            } else {
                s1
            }
        },
    }
}

/// Score after the script's findings.
pub open spec fn script_stage(s: nat, script: Option<&ScriptInfo>) -> nat {
    match script {
        None => s,
        Some(sc) => {
            let s1 = if sc.obfuscation_detected { raise(s, 60) } else { s };
            raise(s1, min_nat(sc.dangerous_calls@.len() * 8, 60))
        },
    }
}

/// Some keyword of the VBA project is a dangerous one.
pub open spec fn has_dangerous_vba(kws: Seq<String>) -> bool {
    exists|i: int| 0 <= i < kws.len() && is_one_of(#[trigger] kws[i]@, dangerous_vba_keywords())
}

/// Score after the archive's findings.
pub open spec fn archive_stage(s: nat, arc: Option<&ArchiveInfo>) -> nat {
    match arc {
        None => s,
        Some(a) => {
            let s1 = if a.has_double_extension { raise(s, 85) } else { s };
            let s2 = if a.has_vba_macros {
                raise(s1, if has_dangerous_vba(a.vba_keywords@) { 80 } else { 45 })
            } else {
                s1
            };
            if a.has_nested_executable && a.has_encrypted_entries {
                raise(s2, 70)
            } else if a.has_nested_executable {
                bump(s2, 15)
            } else {
                s2
            }
        },
    }
}

/// Score after the PDF's findings.
pub open spec fn pdf_stage(s: nat, pdf: Option<&PdfInfo>) -> nat {
    match pdf {
        None => s,
        Some(p) => {
            let s1 = if p.has_launch_action { raise(s, 80) } else { s };
            let s2 = if p.has_javascript && p.has_open_action {
                raise(s1, 75)
            } else if p.has_javascript {
                raise(s1, 45)
            } else {
                s1
            };
            bump(s2, (p.suspicious_count * 5) as nat)
        },
    }
}

/// How many of the arguments are critical ones.
pub open spec fn critical_arg_count(args: Seq<String>) -> nat
    decreases args.len(),
{
    if args.len() == 0 {
        0
    } else {
        critical_arg_count(args.drop_last()) + if is_one_of(args.last()@, critical_lnk_args()) { 1nat } else { 0nat }
    }
}

/// Score after the shortcut's findings.
pub open spec fn lnk_stage(s: nat, lnk: Option<&LnkInfo>) -> nat {
    match lnk {
        None => s,
        Some(l) => {
            if critical_arg_count(l.suspicious_args@) > 0 {
                raise(s, 85)
            } else {
                raise(s, min_nat(l.suspicious_args@.len() * 12, 60))
            }
        },
    }
}

/// Some rule whose name begins with "Ransomware" fired.
pub open spec fn has_ransomware_rule(ms: Seq<YaraMatch>) -> bool {
    exists|i: int| 0 <= i < ms.len() && seq_starts_with(#[trigger] ms[i].rule_name@, "Ransomware"@)
}

/// Score after the hidden-network indicators.
pub open spec fn network_stage(s: nat, ms: Seq<YaraMatch>, extracted: ExtractedIoCs) -> nat {
    let s1 = if extracted.onion_addresses@.len() > 0 { bump(s, 15) } else { s };
    if extracted.btc_wallets@.len() > 0 && has_ransomware_rule(ms) { raise(s1, 90) } else { s1 }
}

/// The aggregated score, stage by stage: signature hit, online reputation,
/// pattern rules, executable, script, archive, PDF, shortcut, hidden network
/// indicators.
pub open spec fn score_of(
    binary_info: Option<&BinaryInfo>,
    script_info: Option<&ScriptInfo>,
    archive_info: Option<&ArchiveInfo>,
    pdf_info: Option<&PdfInfo>,
    lnk_info: Option<&LnkInfo>,
    vt: Option<&VtResult>,
    yara_matches: Seq<YaraMatch>,
    clamav_hit: bool,
    extracted: ExtractedIoCs,
) -> nat {
    let s0: nat = if clamav_hit { 95 } else { 0 };
    let s1 = match vt { Some(v) => raise(s0, vt_floor(v.positives)), None => s0 };
    let s2 = yara_stage(s1, yara_matches);
    let s3 = binary_stage(s2, binary_info);
    let s4 = script_stage(s3, script_info);
    let s5 = archive_stage(s4, archive_info);
    let s6 = pdf_stage(s5, pdf_info);
    let s7 = lnk_stage(s6, lnk_info);
    network_stage(s7, yara_matches, extracted)
}

/// The verdict for a score: up to 25 safe, 26 to 64 suspicious, 65 and above
/// malicious.
pub open spec fn verdict_of(score: nat) -> Verdict {
    if score <= 25 {
        Verdict::Safe
    } else if score <= 64 {
        Verdict::Suspicious
    } else {
        Verdict::Malicious
    }
}

/// Maps a score to its verdict.
pub fn determine_verdict(score: u8) -> (v: Verdict)
    ensures
        v == verdict_of(score as nat),
{
    if score <= 25 {
        Verdict::Safe
    } else if score <= 64 {
        Verdict::Suspicious
    } else {
        Verdict::Malicious
    }
}

fn bump_exec(s: u32, d: u32) -> (r: u32)
    requires
        s <= 100,
        d <= 100,
    ensures
        r == bump(s as nat, d as nat),
        r <= 100,
{
    if s + d > 100 { 100 } else { s + d }
}

fn raise_exec(s: u32, floor: u32) -> (r: u32)
    requires
        s <= 100,
        floor <= 100,
    ensures
        r == raise(s as nat, floor as nat),
        r <= 100,
{
    if s >= floor { s } else { floor }
}

fn yara_weight_exec(sev: Severity) -> (w: u32)
    ensures
        w == yara_weight(sev),
{
    match sev {
        Severity::Critical => 35,
        Severity::High => 20,
        Severity::Medium => 10,
        Severity::Low => 5,
    }
}

fn yara_stage_exec(s: u32, ms: &[YaraMatch]) -> (r: u32)
    requires
        s <= 100,
    ensures
        r == yara_stage(s as nat, ms@),
        r <= 100,
{
    let mut score = s;
    let mut i: usize = 0;
    while i < ms.len()
        invariant
            s <= 100,
            i <= ms@.len(),
            score <= 100,
            score == yara_stage(s as nat, ms@.take(i as int)),
        decreases ms@.len() - i,
    {
        let w = yara_weight_exec(ms[i].severity);
        score = bump_exec(score, w);
        proof {
            assert(ms@.take(i + 1).drop_last() =~= ms@.take(i as int));
        }
        i += 1;
    }
    proof {
        assert(ms@.take(ms@.len() as int) =~= ms@);
    }
    score
}

fn import_weight_exec(imp: &str) -> (w: u32)
    ensures
        w == import_weight(imp@),
{
    let critical: [&str; 7] = [
        "CreateRemoteThread", "WriteProcessMemory", "NtUnmapViewOfSection",
        "ZwUnmapViewOfSection", "QueueUserAPC", "ptrace", "memfd_create",
    ];
    let high: [&str; 6] = [
        "VirtualAllocEx", "SetWindowsHookEx", "URLDownloadToFile", "WinExec", "mprotect", "dlopen",
    ];
    proof {
        assert(critical@ =~= critical_import_markers());
        assert(high@ =~= high_import_markers());
    }
    if any_contained(imp, &critical) {
        20
    } else if any_contained(imp, &high) {
        10
    } else {
        0
    }
}

fn import_score_exec(imps: &[String]) -> (r: u32)
    ensures
        r == min_nat(import_sum(imps@), 40),
{
    let mut acc: u32 = 0;
    let mut i: usize = 0;
    while i < imps.len()
        invariant
            i <= imps@.len(),
            acc == min_nat(import_sum(imps@.take(i as int)), 40),
        decreases imps@.len() - i,
    {
        let w = import_weight_exec(imps[i].as_str());
        acc = if acc + w > 40 { 40 } else { acc + w };
        proof {
            assert(imps@.take(i + 1).drop_last() =~= imps@.take(i as int));
        }
        i += 1;
    }
    proof {
        assert(imps@.take(imps@.len() as int) =~= imps@);
    }
    acc
}

fn entropy_bonus_exec(level: EntropyLevel) -> (r: u32)
    ensures
        r == entropy_bonus(level),
{
    match level {
        EntropyLevel::Extreme => 20,
        EntropyLevel::High => 10,
        EntropyLevel::Elevated => 5,
        EntropyLevel::Normal => 0,
    }
}

fn binary_stage_exec(s: u32, bin: Option<&BinaryInfo>) -> (r: u32)
    requires
        s <= 100,
    ensures
        r == binary_stage(s as nat, bin),
        r <= 100,
{
    match bin {
        None => s,
        Some(b) => {
            let s1 = bump_exec(s, entropy_bonus_exec(b.entropy_level));
            if b.suspicious_imports.len() > 0 {
                bump_exec(s1, import_score_exec(b.suspicious_imports.as_slice()))
            } else {
                s1
            }
        },
    }
}

fn script_stage_exec(s: u32, script: Option<&ScriptInfo>) -> (r: u32)
    requires
        s <= 100,
    ensures
        r == script_stage(s as nat, script),
        r <= 100,
{
    match script {
        None => s,
        Some(sc) => {
            let s1 = if sc.obfuscation_detected { raise_exec(s, 60) } else { s };
            let n = sc.dangerous_calls.len();
            let call: u32 = if n >= 8 { 60 } else { (n * 8) as u32 };
            raise_exec(s1, call)
        },
    }
}

fn has_dangerous_vba_exec(kws: &[String]) -> (r: bool)
    ensures
        r == has_dangerous_vba(kws@),
{
    let list: [&str; 7] = ["Shell", "WScript.Shell", "powershell", "cmd /c", "cmd.exe", "URLDownloadToFile", "XMLHTTP"];
    proof {
        assert(list@ =~= dangerous_vba_keywords());
    }
    let mut i: usize = 0;
    while i < kws.len()
        invariant
            list@ == dangerous_vba_keywords(),
            i <= kws@.len(),
            forall|k: int| 0 <= k < i ==> !is_one_of(#[trigger] kws@[k]@, dangerous_vba_keywords()),
        decreases kws@.len() - i,
    {
        if any_equal(kws[i].as_str(), &list) {
            return true;
        }
        i += 1;
    }
    false
}

fn archive_stage_exec(s: u32, arc: Option<&ArchiveInfo>) -> (r: u32)
    requires
        s <= 100,
    ensures
        r == archive_stage(s as nat, arc),
        r <= 100,
{
    match arc {
        None => s,
        Some(a) => {
            let s1 = if a.has_double_extension { raise_exec(s, 85) } else { s };
            let s2 = if a.has_vba_macros {
                let floor: u32 = if has_dangerous_vba_exec(a.vba_keywords.as_slice()) { 80 } else { 45 };
                raise_exec(s1, floor)
            } else {
                s1
            };
            if a.has_nested_executable && a.has_encrypted_entries {
                raise_exec(s2, 70)
            } else if a.has_nested_executable {
                bump_exec(s2, 15)
            } else {
                s2
            }
        },
    }
}

fn pdf_stage_exec(s: u32, pdf: Option<&PdfInfo>) -> (r: u32)
    requires
        s <= 100,
    ensures
        r == pdf_stage(s as nat, pdf),
        r <= 100,
{
    match pdf {
        None => s,
        Some(p) => {
            let s1 = if p.has_launch_action { raise_exec(s, 80) } else { s };
            let s2 = if p.has_javascript && p.has_open_action {
                raise_exec(s1, 75)
            } else if p.has_javascript {
                raise_exec(s1, 45)
            } else {
                s1
            };
            if p.suspicious_count >= 20 {
                100
            } else {
                bump_exec(s2, (p.suspicious_count * 5) as u32)
            }
        },
    }
}

fn critical_arg_count_exec(args: &[String]) -> (r: usize)
    ensures
        r == critical_arg_count(args@),
{
    let list: [&str; 5] = ["-encodedcommand", "-enc ", "mshta", "certutil", "bitsadmin"];
    proof {
        assert(list@ =~= critical_lnk_args());
    }
    let mut count: usize = 0;
    let mut i: usize = 0;
    while i < args.len()
        invariant
            list@ == critical_lnk_args(),
            i <= args@.len(),
            count <= i,
            count == critical_arg_count(args@.take(i as int)),
        decreases args@.len() - i,
    {
        if any_equal(args[i].as_str(), &list) {
            count += 1;
        }
        proof {
            assert(args@.take(i + 1).drop_last() =~= args@.take(i as int));
        }
        i += 1;
    }
    proof {
        assert(args@.take(args@.len() as int) =~= args@);
    }
    count
}

fn lnk_stage_exec(s: u32, lnk: Option<&LnkInfo>) -> (r: u32)
    requires
        s <= 100,
    ensures
        r == lnk_stage(s as nat, lnk),
        r <= 100,
{
    match lnk {
        None => s,
        Some(l) => {
            if critical_arg_count_exec(l.suspicious_args.as_slice()) > 0 {
                raise_exec(s, 85)
            } else {
                let n = l.suspicious_args.len();
                let arg_score: u32 = if n >= 5 { 60 } else { (n * 12) as u32 };
                raise_exec(s, arg_score)
            }
        },
    }
}

fn has_ransomware_rule_exec(ms: &[YaraMatch]) -> (r: bool)
    ensures
        r == has_ransomware_rule(ms@),
{
    let prefix = chars_of("Ransomware");
    let mut i: usize = 0;
    while i < ms.len()
        invariant
            prefix@ == "Ransomware"@,
            i <= ms@.len(),
            forall|k: int| 0 <= k < i ==> !seq_starts_with(#[trigger] ms@[k].rule_name@, "Ransomware"@),
        decreases ms@.len() - i,
    {
        let name = chars_of(ms[i].rule_name.as_str());
        if prefix.len() <= name.len() && chars_match_at(name.as_slice(), prefix.as_slice(), 0) {
            return true;
        }
        i += 1;
    }
    false
}

/// The aggregated score of a scan, from 0 to 100.
pub fn compute_score(
    binary_info: Option<&BinaryInfo>,
    script_info: Option<&ScriptInfo>,
    archive_info: Option<&ArchiveInfo>,
    pdf_info: Option<&PdfInfo>,
    lnk_info: Option<&LnkInfo>,
    vt: Option<&VtResult>,
    yara_matches: &[YaraMatch],
    clamav_hit: bool,
    extracted: &ExtractedIoCs,
) -> (score: u8)
    ensures
        score as nat == score_of(
            binary_info,
            script_info,
            archive_info,
            pdf_info,
            lnk_info,
            vt,
            yara_matches@,
            clamav_hit,
            *extracted,
        ),
        score <= 100,
{
    let s0: u32 = if clamav_hit { 95 } else { 0 };
    let s1: u32 = match vt {
        Some(v) => {
            let floor: u32 = if v.positives >= 10 {
                95
            } else if v.positives >= 3 {
                85
            } else if v.positives >= 1 {
                60
            } else {
                0
            };
            raise_exec(s0, floor)
        },
        None => s0,
    };
    let s2 = yara_stage_exec(s1, yara_matches);
    let s3 = binary_stage_exec(s2, binary_info);
    let s4 = script_stage_exec(s3, script_info);
    let s5 = archive_stage_exec(s4, archive_info);
    let s6 = pdf_stage_exec(s5, pdf_info);
    let s7 = lnk_stage_exec(s6, lnk_info);
    let s8 = if extracted.onion_addresses.len() > 0 { bump_exec(s7, 15) } else { s7 };
    let s9 = if extracted.btc_wallets.len() > 0 && has_ransomware_rule_exec(yara_matches) {
        raise_exec(s8, 90)
    } else {
        s8
    };
    s9 as u8
}

/// Rank of a verdict on the scale safe < suspicious < malicious.
pub open spec fn verdict_rank(v: Verdict) -> nat {
    match v {
        Verdict::Safe => 0,
        Verdict::Suspicious => 1,
        Verdict::Malicious => 2,
        Verdict::Unknown => 0,
    }
}

/// A higher score never gives a milder verdict.
pub proof fn verdict_is_monotone(a: nat, b: nat)
    requires
        a <= b,
    ensures
        verdict_rank(verdict_of(a)) <= verdict_rank(verdict_of(b)),
{
}

proof fn yara_stage_grows(s: nat, ms: Seq<YaraMatch>)
    requires
        s <= 100,
    ensures
        s <= yara_stage(s, ms) <= 100,
    decreases ms.len(),
{
    if ms.len() > 0 {
        yara_stage_grows(s, ms.drop_last());
    }
}

/// No stage of the score lowers it, and none lifts it past 100.
pub proof fn stages_never_lower_the_score(
    s: nat,
    binary_info: Option<&BinaryInfo>,
    script_info: Option<&ScriptInfo>,
    archive_info: Option<&ArchiveInfo>,
    pdf_info: Option<&PdfInfo>,
    lnk_info: Option<&LnkInfo>,
    yara_matches: Seq<YaraMatch>,
    extracted: ExtractedIoCs,
)
    requires
        s <= 100,
    ensures
        s <= yara_stage(s, yara_matches) <= 100,
        s <= binary_stage(s, binary_info) <= 100,
        s <= script_stage(s, script_info) <= 100,
        s <= archive_stage(s, archive_info) <= 100,
        s <= pdf_stage(s, pdf_info) <= 100,
        s <= lnk_stage(s, lnk_info) <= 100,
        s <= network_stage(s, yara_matches, extracted) <= 100,
{
    yara_stage_grows(s, yara_matches);
}

/// A file that the signature database knows, or that at least three engines
/// of the online service flag, is judged malicious whatever else was found.
pub proof fn known_malware_is_malicious(
    binary_info: Option<&BinaryInfo>,
    script_info: Option<&ScriptInfo>,
    archive_info: Option<&ArchiveInfo>,
    pdf_info: Option<&PdfInfo>,
    lnk_info: Option<&LnkInfo>,
    vt: Option<&VtResult>,
    yara_matches: Seq<YaraMatch>,
    clamav_hit: bool,
    extracted: ExtractedIoCs,
)
    requires
        clamav_hit || (vt is Some && vt->0.positives >= 3),
    ensures
        verdict_of(
            score_of(
                binary_info,
                script_info,
                archive_info,
                pdf_info,
                lnk_info,
                vt,
                yara_matches,
                clamav_hit,
                extracted,
            ),
        ) == Verdict::Malicious,
{
    let s0: nat = if clamav_hit { 95 } else { 0 };
    let s1 = match vt { Some(v) => raise(s0, vt_floor(v.positives)), None => s0 };
    assert(s1 >= 85);
    let s2 = yara_stage(s1, yara_matches);
    stages_never_lower_the_score(s1, binary_info, script_info, archive_info, pdf_info, lnk_info, yara_matches, extracted);
    let s3 = binary_stage(s2, binary_info);
    stages_never_lower_the_score(s2, binary_info, script_info, archive_info, pdf_info, lnk_info, yara_matches, extracted);
    let s4 = script_stage(s3, script_info);
    stages_never_lower_the_score(s3, binary_info, script_info, archive_info, pdf_info, lnk_info, yara_matches, extracted);
    let s5 = archive_stage(s4, archive_info);
    stages_never_lower_the_score(s4, binary_info, script_info, archive_info, pdf_info, lnk_info, yara_matches, extracted);
    let s6 = pdf_stage(s5, pdf_info);
    stages_never_lower_the_score(s5, binary_info, script_info, archive_info, pdf_info, lnk_info, yara_matches, extracted);
    let s7 = lnk_stage(s6, lnk_info);
    stages_never_lower_the_score(s6, binary_info, script_info, archive_info, pdf_info, lnk_info, yara_matches, extracted);
    stages_never_lower_the_score(s7, binary_info, script_info, archive_info, pdf_info, lnk_info, yara_matches, extracted);
}

/// Sum of the weights of the rule matches.
pub open spec fn yara_sum(ms: Seq<YaraMatch>) -> nat
    decreases ms.len(),
{
    if ms.len() == 0 { 0 } else { yara_sum(ms.drop_last()) + yara_weight(ms.last().severity) }
}

/// The pattern-rule stage adds the sum of the weights, capped at 100.
proof fn yara_stage_is_capped_sum(s: nat, ms: Seq<YaraMatch>)
    requires
        s <= 100,
    ensures
        yara_stage(s, ms) == min_nat(s + yara_sum(ms), 100),
    decreases ms.len(),
{
    if ms.len() > 0 {
        yara_stage_is_capped_sum(s, ms.drop_last());
    }
}

/// Taking one match out of the list takes its weight out of the sum.
proof fn yara_sum_remove(ms: Seq<YaraMatch>, j: int)
    requires
        0 <= j < ms.len(),
    ensures
        yara_sum(ms) == yara_sum(ms.remove(j)) + yara_weight(ms[j].severity),
    decreases ms.len(),
{
    if j == ms.len() - 1 {
        assert(ms.remove(j) =~= ms.drop_last());
    } else {
        yara_sum_remove(ms.drop_last(), j);
        assert(ms.remove(j).drop_last() =~= ms.drop_last().remove(j));
        assert(ms.remove(j).last() == ms.last());
    }
}

/// Lists with the same matches, in any order, have the same sum.
proof fn yara_sum_permutation(a: Seq<YaraMatch>, b: Seq<YaraMatch>)
    requires
        a.to_multiset() == b.to_multiset(),
    ensures
        yara_sum(a) == yara_sum(b),
    decreases a.len(),
{
    broadcast use vstd::seq_lib::group_to_multiset_ensures;
    if a.len() == 0 {
        assert(b.to_multiset().len() == 0);
    } else {
        let x = a.last();
        let a1 = a.drop_last();
        assert(a1.push(x) =~= a);
        assert(a.to_multiset() =~= a1.to_multiset().insert(x));
        assert(b.to_multiset().count(x) > 0);
        assert(b.contains(x));
        let j = choose|j: int| 0 <= j < b.len() && b[j] == x;
        let b1 = b.remove(j);
        assert(b1.to_multiset() =~= b.to_multiset().remove(x));
        assert(b1.to_multiset() =~= a1.to_multiset());
        yara_sum_permutation(a1, b1);
        yara_sum_remove(b, j);
    }
}

/// The score does not depend on the order in which the pattern rules
/// fired.
pub proof fn rule_order_does_not_matter(
    binary_info: Option<&BinaryInfo>,
    script_info: Option<&ScriptInfo>,
    archive_info: Option<&ArchiveInfo>,
    pdf_info: Option<&PdfInfo>,
    lnk_info: Option<&LnkInfo>,
    vt: Option<&VtResult>,
    ys: Seq<YaraMatch>,
    ys2: Seq<YaraMatch>,
    clamav_hit: bool,
    extracted: ExtractedIoCs,
)
    requires
        ys2.to_multiset() == ys.to_multiset(),
    ensures
        score_of(binary_info, script_info, archive_info, pdf_info, lnk_info, vt, ys2, clamav_hit, extracted)
            == score_of(binary_info, script_info, archive_info, pdf_info, lnk_info, vt, ys, clamav_hit, extracted),
{
    broadcast use vstd::seq_lib::group_to_multiset_ensures;
    let s0: nat = if clamav_hit { 95 } else { 0 };
    let s1 = match vt { Some(v) => raise(s0, vt_floor(v.positives)), None => s0 };
    yara_stage_is_capped_sum(s1, ys);
    yara_stage_is_capped_sum(s1, ys2);
    yara_sum_permutation(ys, ys2);
    if has_ransomware_rule(ys) {
        let i = choose|i: int| 0 <= i < ys.len() && seq_starts_with(#[trigger] ys[i].rule_name@, "Ransomware"@);
        assert(ys.contains(ys[i]));
        assert(ys2.to_multiset().count(ys[i]) > 0);
        assert(ys2.contains(ys[i]));
        let j = choose|j: int| 0 <= j < ys2.len() && ys2[j] == ys[i];
        assert(seq_starts_with(ys2[j].rule_name@, "Ransomware"@));
    }
    if has_ransomware_rule(ys2) {
        let i = choose|i: int| 0 <= i < ys2.len() && seq_starts_with(#[trigger] ys2[i].rule_name@, "Ransomware"@);
        assert(ys2.contains(ys2[i]));
        assert(ys.to_multiset().count(ys2[i]) > 0);
        assert(ys.contains(ys2[i]));
        let j = choose|j: int| 0 <= j < ys.len() && ys[j] == ys2[i];
        assert(seq_starts_with(ys[j].rule_name@, "Ransomware"@));
    }
}

/// Every stage gives at least as much from a higher score.
proof fn stages_are_monotone(
    s: nat,
    t: nat,
    binary_info: Option<&BinaryInfo>,
    script_info: Option<&ScriptInfo>,
    archive_info: Option<&ArchiveInfo>,
    pdf_info: Option<&PdfInfo>,
    lnk_info: Option<&LnkInfo>,
)
    requires
        s <= t,
    ensures
        binary_stage(s, binary_info) <= binary_stage(t, binary_info),
        script_stage(s, script_info) <= script_stage(t, script_info),
        archive_stage(s, archive_info) <= archive_stage(t, archive_info),
        pdf_stage(s, pdf_info) <= pdf_stage(t, pdf_info),
        lnk_stage(s, lnk_info) <= lnk_stage(t, lnk_info),
{
}

/// One more rule match never lowers the score.
pub proof fn another_match_never_lowers_the_score(
    binary_info: Option<&BinaryInfo>,
    script_info: Option<&ScriptInfo>,
    archive_info: Option<&ArchiveInfo>,
    pdf_info: Option<&PdfInfo>,
    lnk_info: Option<&LnkInfo>,
    vt: Option<&VtResult>,
    ys: Seq<YaraMatch>,
    m: YaraMatch,
    clamav_hit: bool,
    extracted: ExtractedIoCs,
)
    ensures
        score_of(binary_info, script_info, archive_info, pdf_info, lnk_info, vt, ys.push(m), clamav_hit, extracted)
            >= score_of(binary_info, script_info, archive_info, pdf_info, lnk_info, vt, ys, clamav_hit, extracted),
{
    let s0: nat = if clamav_hit { 95 } else { 0 };
    let s1 = match vt { Some(v) => raise(s0, vt_floor(v.positives)), None => s0 };
    let ys2 = ys.push(m);
    assert(ys2.drop_last() =~= ys);
    let a2 = yara_stage(s1, ys);
    let b2 = yara_stage(s1, ys2);
    assert(a2 <= b2);
    stages_are_monotone(a2, b2, binary_info, script_info, archive_info, pdf_info, lnk_info);
    let a3 = binary_stage(a2, binary_info);
    let b3 = binary_stage(b2, binary_info);
    stages_are_monotone(a3, b3, binary_info, script_info, archive_info, pdf_info, lnk_info);
    let a4 = script_stage(a3, script_info);
    let b4 = script_stage(b3, script_info);
    stages_are_monotone(a4, b4, binary_info, script_info, archive_info, pdf_info, lnk_info);
    let a5 = archive_stage(a4, archive_info);
    let b5 = archive_stage(b4, archive_info);
    stages_are_monotone(a5, b5, binary_info, script_info, archive_info, pdf_info, lnk_info);
    let a6 = pdf_stage(a5, pdf_info);
    let b6 = pdf_stage(b5, pdf_info);
    stages_are_monotone(a6, b6, binary_info, script_info, archive_info, pdf_info, lnk_info);
    if has_ransomware_rule(ys) {
        let i = choose|i: int| 0 <= i < ys.len() && seq_starts_with(#[trigger] ys[i].rule_name@, "Ransomware"@);
        assert(ys2[i] == ys[i]);
    }
}

/// A macro project that holds a dangerous keyword, wherever the keyword
/// stands in its list, gives a score of at least 80, so the file is judged
/// malicious, whatever else was found.
pub proof fn dangerous_macro_keyword_anywhere_is_malicious(
    binary_info: Option<&BinaryInfo>,
    script_info: Option<&ScriptInfo>,
    archive_info: Option<&ArchiveInfo>,
    pdf_info: Option<&PdfInfo>,
    lnk_info: Option<&LnkInfo>,
    vt: Option<&VtResult>,
    yara_matches: Seq<YaraMatch>,
    clamav_hit: bool,
    extracted: ExtractedIoCs,
    i: int,
)
    requires
        archive_info is Some,
        archive_info->0.has_vba_macros,
        0 <= i < archive_info->0.vba_keywords@.len(),
        is_one_of(archive_info->0.vba_keywords@[i]@, dangerous_vba_keywords()),
    ensures
        score_of(binary_info, script_info, archive_info, pdf_info, lnk_info, vt, yara_matches, clamav_hit, extracted)
            >= 80,
        verdict_of(
            score_of(binary_info, script_info, archive_info, pdf_info, lnk_info, vt, yara_matches, clamav_hit, extracted),
        ) == Verdict::Malicious,
{
    let a = archive_info->0;
    assert(has_dangerous_vba(a.vba_keywords@));
    let s0: nat = if clamav_hit { 95 } else { 0 };
    let s1 = match vt { Some(v) => raise(s0, vt_floor(v.positives)), None => s0 };
    let s2 = yara_stage(s1, yara_matches);
    stages_never_lower_the_score(s1, binary_info, script_info, archive_info, pdf_info, lnk_info, yara_matches, extracted);
    let s3 = binary_stage(s2, binary_info);
    stages_never_lower_the_score(s2, binary_info, script_info, archive_info, pdf_info, lnk_info, yara_matches, extracted);
    let s4 = script_stage(s3, script_info);
    stages_never_lower_the_score(s3, binary_info, script_info, archive_info, pdf_info, lnk_info, yara_matches, extracted);
    let s5 = archive_stage(s4, archive_info);
    stages_never_lower_the_score(s4, binary_info, script_info, archive_info, pdf_info, lnk_info, yara_matches, extracted);
    assert(s5 >= 80);
    let s6 = pdf_stage(s5, pdf_info);
    stages_never_lower_the_score(s5, binary_info, script_info, archive_info, pdf_info, lnk_info, yara_matches, extracted);
    let s7 = lnk_stage(s6, lnk_info);
    stages_never_lower_the_score(s6, binary_info, script_info, archive_info, pdf_info, lnk_info, yara_matches, extracted);
    stages_never_lower_the_score(s7, binary_info, script_info, archive_info, pdf_info, lnk_info, yara_matches, extracted);
}

/// Whether a macro project counts as dangerous does not depend on the order
/// of its keywords, nor on repeats: two lists with the same keywords agree.
pub proof fn macro_keyword_order_does_not_matter(kws: Seq<String>, kws2: Seq<String>)
    requires
        forall|i: int| 0 <= i < kws.len() ==> exists|j: int| 0 <= j < kws2.len() && #[trigger] kws2[j]@ == #[trigger] kws[i]@,
        forall|j: int| 0 <= j < kws2.len() ==> exists|i: int| 0 <= i < kws.len() && #[trigger] kws[i]@ == #[trigger] kws2[j]@,
    ensures
        has_dangerous_vba(kws) == has_dangerous_vba(kws2),
{
    if has_dangerous_vba(kws) {
        let i = choose|i: int| 0 <= i < kws.len() && is_one_of(#[trigger] kws[i]@, dangerous_vba_keywords());
        let j = choose|j: int| 0 <= j < kws2.len() && #[trigger] kws2[j]@ == #[trigger] kws[i]@;
        assert(is_one_of(kws2[j]@, dangerous_vba_keywords()));
    }
    if has_dangerous_vba(kws2) {
        let j = choose|j: int| 0 <= j < kws2.len() && is_one_of(#[trigger] kws2[j]@, dangerous_vba_keywords());
        let i = choose|i: int| 0 <= i < kws.len() && #[trigger] kws[i]@ == #[trigger] kws2[j]@;
        assert(is_one_of(kws[i]@, dangerous_vba_keywords()));
    }
}

/// A critical argument anywhere among the arguments counts.
proof fn critical_arg_counts(args: Seq<String>, i: int)
    requires
        0 <= i < args.len(),
        is_one_of(args[i]@, critical_lnk_args()),
    ensures
        critical_arg_count(args) > 0,
    decreases args.len(),
{
    if i < args.len() - 1 {
        critical_arg_counts(args.drop_last(), i);
    }
}

/// A shortcut with a critical argument (an encoded PowerShell command,
/// `mshta`, `certutil`, `bitsadmin`), wherever it stands among the suspicious
/// arguments, gives a score of at least 85: the file is judged malicious.
pub proof fn critical_shortcut_argument_is_malicious(
    binary_info: Option<&BinaryInfo>,
    script_info: Option<&ScriptInfo>,
    archive_info: Option<&ArchiveInfo>,
    pdf_info: Option<&PdfInfo>,
    lnk_info: Option<&LnkInfo>,
    vt: Option<&VtResult>,
    yara_matches: Seq<YaraMatch>,
    clamav_hit: bool,
    extracted: ExtractedIoCs,
    i: int,
)
    requires
        lnk_info is Some,
        0 <= i < lnk_info->0.suspicious_args@.len(),
        is_one_of(lnk_info->0.suspicious_args@[i]@, critical_lnk_args()),
    ensures
        score_of(binary_info, script_info, archive_info, pdf_info, lnk_info, vt, yara_matches, clamav_hit, extracted)
            >= 85,
        verdict_of(
            score_of(binary_info, script_info, archive_info, pdf_info, lnk_info, vt, yara_matches, clamav_hit, extracted),
        ) == Verdict::Malicious,
{
    critical_arg_counts(lnk_info->0.suspicious_args@, i);
    let s0: nat = if clamav_hit { 95 } else { 0 };
    let s1 = match vt { Some(v) => raise(s0, vt_floor(v.positives)), None => s0 };
    let s2 = yara_stage(s1, yara_matches);
    stages_never_lower_the_score(s1, binary_info, script_info, archive_info, pdf_info, lnk_info, yara_matches, extracted);
    let s3 = binary_stage(s2, binary_info);
    stages_never_lower_the_score(s2, binary_info, script_info, archive_info, pdf_info, lnk_info, yara_matches, extracted);
    let s4 = script_stage(s3, script_info);
    stages_never_lower_the_score(s3, binary_info, script_info, archive_info, pdf_info, lnk_info, yara_matches, extracted);
    let s5 = archive_stage(s4, archive_info);
    stages_never_lower_the_score(s4, binary_info, script_info, archive_info, pdf_info, lnk_info, yara_matches, extracted);
    let s6 = pdf_stage(s5, pdf_info);
    stages_never_lower_the_score(s5, binary_info, script_info, archive_info, pdf_info, lnk_info, yara_matches, extracted);
    let s7 = lnk_stage(s6, lnk_info);
    stages_never_lower_the_score(s6, binary_info, script_info, archive_info, pdf_info, lnk_info, yara_matches, extracted);
    assert(s7 >= 85);
    stages_never_lower_the_score(s7, binary_info, script_info, archive_info, pdf_info, lnk_info, yara_matches, extracted);
}

/// A Bitcoin wallet together with a ransomware rule, wherever that rule
/// stands among the matches, gives a score of at least 90.
pub proof fn ransom_wallet_is_malicious(
    binary_info: Option<&BinaryInfo>,
    script_info: Option<&ScriptInfo>,
    archive_info: Option<&ArchiveInfo>,
    pdf_info: Option<&PdfInfo>,
    lnk_info: Option<&LnkInfo>,
    vt: Option<&VtResult>,
    yara_matches: Seq<YaraMatch>,
    clamav_hit: bool,
    extracted: ExtractedIoCs,
    i: int,
)
    requires
        extracted.btc_wallets@.len() > 0,
        0 <= i < yara_matches.len(),
        seq_starts_with(yara_matches[i].rule_name@, "Ransomware"@),
    ensures
        score_of(binary_info, script_info, archive_info, pdf_info, lnk_info, vt, yara_matches, clamav_hit, extracted)
            >= 90,
{
    assert(has_ransomware_rule(yara_matches));
    let s0: nat = if clamav_hit { 95 } else { 0 };
    let s1 = match vt { Some(v) => raise(s0, vt_floor(v.positives)), None => s0 };
    let s2 = yara_stage(s1, yara_matches);
    stages_never_lower_the_score(s1, binary_info, script_info, archive_info, pdf_info, lnk_info, yara_matches, extracted);
    let s3 = binary_stage(s2, binary_info);
    stages_never_lower_the_score(s2, binary_info, script_info, archive_info, pdf_info, lnk_info, yara_matches, extracted);
    let s4 = script_stage(s3, script_info);
    stages_never_lower_the_score(s3, binary_info, script_info, archive_info, pdf_info, lnk_info, yara_matches, extracted);
    let s5 = archive_stage(s4, archive_info);
    stages_never_lower_the_score(s4, binary_info, script_info, archive_info, pdf_info, lnk_info, yara_matches, extracted);
    let s6 = pdf_stage(s5, pdf_info);
    stages_never_lower_the_score(s5, binary_info, script_info, archive_info, pdf_info, lnk_info, yara_matches, extracted);
    let s7 = lnk_stage(s6, lnk_info);
    stages_never_lower_the_score(s6, binary_info, script_info, archive_info, pdf_info, lnk_info, yara_matches, extracted);
}

} // verus!
