//! Executable analysis (PE, ELF, Mach-O): the layout that the `goblin` crate
//! reads, and the findings drawn from it: suspicious imports, packer
//! signatures, high entropy, missing signature, stripped symbols.

use vstd::prelude::*;
use crate::text::{
    any_contained, chars_of, contains_any, contains_bytes, contains_chars, seq_contains, string_of, to_lowercase,
    trim_c, trim_char, unicode_lower,
};
use crate::types::{
    iocs_view, strings_view, BinaryInfo, BinarySection, EntropyLevel, IoC, ScanError, Severity,
};

verus! {

/// The executable formats told apart.
#[derive(Debug, Clone, Copy, PartialEq, Eq, Structural)]
pub enum BinaryFormat {
    Pe,
    Elf,
    MachO,
    /// A universal Mach-O whose first architecture could not be read.
    MachOFat,
}

/// A section or segment as laid out in the file.
pub struct RawSection {
    pub name: String,
    pub virtual_size: u64,
    pub raw_size: u64,
    /// Start of the section's bytes in the file.
    pub data_start: usize,
    /// End of the section's bytes in the file.
    pub data_end: usize,
}

/// What the analysis reads of an executable.
pub struct BinaryLayout {
    pub format: BinaryFormat,
    pub is_64bit: bool,
    pub is_signed: bool,
    pub sections: Vec<RawSection>,
    pub imports: Vec<String>,
    pub entry_point: u64,
    /// Neither dynamic nor static symbols (ELF).
    pub stripped: bool,
}

/// Imported functions that mark a Windows executable as suspicious.
pub open spec fn suspicious_pe_imports() -> Seq<&'static str> {
    seq![
        "VirtualAlloc", "VirtualAllocEx", "WriteProcessMemory", "CreateRemoteThread", "NtUnmapViewOfSection",
        "ZwUnmapViewOfSection", "SetWindowsHookEx", "GetAsyncKeyState", "CryptEncrypt", "CryptDecrypt",
        "InternetOpen", "InternetConnect", "URLDownloadToFile", "ShellExecute", "WinExec", "CreateProcess",
        "OpenProcess", "ReadProcessMemory", "IsDebuggerPresent", "CheckRemoteDebuggerPresent",
        "NtQueryInformationProcess", "QueueUserAPC", "RtlCreateUserThread", "AdjustTokenPrivileges",
        "CryptAcquireContext", "GetClipboardData", "BitBlt", "RegSetValue",
    ]
}

/// Imported functions that mark a Unix executable as suspicious.
pub open spec fn suspicious_elf_imports() -> Seq<&'static str> {
    seq![
        "ptrace", "execve", "fork", "dlopen", "mprotect", "memfd_create", "setuid", "setgid", "chroot",
        "socket", "connect", "system", "popen",
    ]
}

/// Packer names and their signatures.
pub open spec fn packer_signatures() -> Seq<(&'static str, &'static str)> {
    seq![
        ("UPX", "UPX0"), ("UPX1", "UPX1"), ("MPRESS", "MPRESS1"), ("PECompact", "PECompact2"),
        ("Themida", "Themida"), ("VMProtect", ".vmp0"), ("ASPack", ".aspack"), ("Petite", ".petite"),
        ("FSG", "FSG!"), ("NsPack", ".nsp0"),
    ]
}

fn packer_signatures_exec() -> (r: [(&'static str, &'static str); 10])
    ensures
        r@ == packer_signatures(),
{
    let r: [(&'static str, &'static str); 10] = [
        ("UPX", "UPX0"), ("UPX1", "UPX1"), ("MPRESS", "MPRESS1"), ("PECompact", "PECompact2"),
        ("Themida", "Themida"), ("VMProtect", ".vmp0"), ("ASPack", ".aspack"), ("Petite", ".petite"),
        ("FSG", "FSG!"), ("NsPack", ".nsp0"),
    ];
    proof {
        assert(r@ =~= packer_signatures());
    }
    r
}

/// The name holds, ignoring case, one of the listed functions.
pub open spec fn is_suspicious(name: Seq<char>, list: Seq<&str>) -> bool {
    exists|j: int| 0 <= j < list.len() && seq_contains(unicode_lower(name), unicode_lower(#[trigger] list[j]@))
}

/// The suspicious imports, in order.
pub open spec fn suspicious_of(imports: Seq<Seq<char>>, list: Seq<&str>) -> Seq<Seq<char>>
    decreases imports.len(),
{
    if imports.len() == 0 {
        seq![]
    } else {
        let prev = suspicious_of(imports.drop_last(), list);
        if is_suspicious(imports.last(), list) { prev.push(imports.last()) } else { prev }
    }
}

/// The imports that hold, ignoring case, one of the listed functions.
pub fn filter_suspicious(imports: &Vec<String>, suspicious: &[&str]) -> (r: Vec<String>)
    ensures
        strings_view(r@) == suspicious_of(strings_view(imports@), suspicious@),
{
    let mut lowered: Vec<Vec<char>> = Vec::new();
    let mut j: usize = 0;
    while j < suspicious.len()
        invariant
            j <= suspicious@.len(),
            lowered@.len() == j,
            forall|k: int| 0 <= k < j ==> (#[trigger] lowered@[k])@ == unicode_lower(suspicious@[k]@),
        decreases suspicious@.len() - j,
    {
        lowered.push(chars_of(to_lowercase(suspicious[j]).as_str()));
        j += 1;
    }
    let ghost iv = strings_view(imports@);
    let mut out: Vec<String> = Vec::new();
    let mut i: usize = 0;
    while i < imports.len()
        invariant
            iv == strings_view(imports@),
            i <= imports@.len(),
            lowered@.len() == suspicious@.len(),
            forall|k: int| 0 <= k < suspicious@.len() ==> (#[trigger] lowered@[k])@ == unicode_lower(suspicious@[k]@),
            strings_view(out@) == suspicious_of(iv.take(i as int), suspicious@),
        decreases imports@.len() - i,
    {
        proof {
            assert(iv.take(i + 1).drop_last() =~= iv.take(i as int));
        }
        let name = chars_of(to_lowercase(imports[i].as_str()).as_str());
        let mut hit = false;
        let mut k: usize = 0;
        while k < lowered.len()
            invariant
                k <= lowered@.len(),
                lowered@.len() == suspicious@.len(),
                forall|m: int| 0 <= m < suspicious@.len() ==> (#[trigger] lowered@[m])@ == unicode_lower(suspicious@[m]@),
                hit == exists|m: int| 0 <= m < k && seq_contains(name@, unicode_lower(#[trigger] suspicious@[m]@)),
            decreases lowered@.len() - k,
        {
            if contains_chars(name.as_slice(), lowered[k].as_slice()) {
                hit = true;
            }
            k += 1;
        }
        if hit {
            let ghost old = strings_view(out@);
            out.push(clone_string(&imports[i]));
            proof {
                assert(strings_view(out@) =~= old.push(iv[i as int]));
            }
        }
        i += 1;
    }
    proof {
        assert(iv.take(imports@.len() as int) =~= iv);
    }
    out
}

fn clone_string(s: &String) -> (r: String)
    ensures
        r@ == s@,
{
    s.clone()
}

/// The signature of the packer occurs in the data.
pub open spec fn packer_found(data: Seq<u8>, p: (&'static str, &'static str)) -> bool {
    seq_contains(data, vstd::utf8::encode_utf8(p.1@))
}

/// The first packer, in table order, whose signature occurs.
pub open spec fn first_packer(data: Seq<u8>, from: nat) -> Option<&'static str>
    decreases packer_signatures().len() - from,
{
    if from >= packer_signatures().len() {
        None
    } else if packer_found(data, packer_signatures()[from as int]) {
        Some(packer_signatures()[from as int].0)
    } else {
        first_packer(data, from + 1)
    }
}

/// The name of the first packer whose signature occurs in the data.
pub fn detect_packer(data: &[u8]) -> (r: Option<&'static str>)
    ensures
        r == first_packer(data@, 0),
{
    let sigs = packer_signatures_exec();
    let mut i: usize = 0;
    while i < 10
        invariant
            sigs@ == packer_signatures(),
            i <= 10,
            first_packer(data@, 0) == first_packer(data@, i as nat),
        decreases 10 - i,
    {
        let (name, sig) = sigs[i];
        proof {
            assert(packer_signatures()[i as int] == (name, sig));
        }
        if contains_bytes(data, sig.as_bytes()) {
            return Some(name);
        }
        i += 1;
    }
    None
}

/// The indicators of the packers, among the first `n`, whose signatures occur.
pub open spec fn packer_iocs_upto(data: Seq<u8>, n: nat) -> Seq<(Seq<char>, Seq<char>, Severity, Seq<char>)>
    decreases n,
{
    if n == 0 {
        seq![]
    } else {
        let prev = packer_iocs_upto(data, (n - 1) as nat);
        let p = packer_signatures()[n - 1];
        if packer_found(data, p) {
            prev.push(("Packer"@, p.0@, Severity::Medium, "Signature du packer "@ + p.0@ + " détectée"@))
        } else {
            prev
        }
    }
}

/// One indicator per packer whose signature occurs, in table order.
pub open spec fn packer_iocs(data: Seq<u8>) -> Seq<(Seq<char>, Seq<char>, Severity, Seq<char>)> {
    packer_iocs_upto(data, packer_signatures().len())
}

fn concat2(a: &str, b: &str) -> (r: String)
    ensures
        r@ == a@ + b@,
{
    let mut v = chars_of(a);
    let mut w = chars_of(b);
    v.append(&mut w);
    string_of(v.as_slice())
}

fn concat3(a: &str, b: &str, c: &str) -> (r: String)
    ensures
        r@ == a@ + b@ + c@,
{
    let mut v = chars_of(a);
    let mut w = chars_of(b);
    let mut x = chars_of(c);
    v.append(&mut w);
    v.append(&mut x);
    string_of(v.as_slice())
}

/// Appends one indicator per packer whose signature occurs in the data.
pub fn add_packer_iocs(raw_bytes: &[u8], ioc_list: &mut Vec<IoC>)
    ensures
        iocs_view(final(ioc_list)@) == iocs_view(old(ioc_list)@) + packer_iocs(raw_bytes@),
{
    let sigs = packer_signatures_exec();
    let ghost start = iocs_view(ioc_list@);
    let mut i: usize = 0;
    while i < 10
        invariant
            sigs@ == packer_signatures(),
            i <= 10,
            iocs_view(ioc_list@) == start + packer_iocs_upto(raw_bytes@, i as nat),
        decreases 10 - i,
    {
        let (name, sig) = sigs[i];
        proof {
            assert(packer_signatures()[i as int] == (name, sig));
        }
        if contains_bytes(raw_bytes, sig.as_bytes()) {
            let desc = concat3("Signature du packer ", name, " détectée");
            let ghost old = iocs_view(ioc_list@);
            ioc_list.push(IoC::new("Packer", name, Severity::Medium, desc.as_str()));
            proof {
                assert(iocs_view(ioc_list@) =~= old.push(("Packer"@, name@, Severity::Medium,
                    "Signature du packer "@ + name@ + " détectée"@)));
                assert(start + packer_iocs_upto(raw_bytes@, (i + 1) as nat)
                    =~= (start + packer_iocs_upto(raw_bytes@, i as nat)).push(("Packer"@, name@, Severity::Medium,
                    "Signature du packer "@ + name@ + " détectée"@)));
            }
        }
        i += 1;
    }
}

/// Severity of an import from three lists of markers, most serious first.
pub open spec fn classify_with(import: Seq<char>, critical: Seq<&str>, high: Seq<&str>, medium: Seq<&str>) -> Severity {
    if contains_any(import, critical) {
        Severity::Critical
    } else if contains_any(import, high) {
        Severity::High
    } else if contains_any(import, medium) {
        Severity::Medium
    } else {
        Severity::Low
    }
}

/// Windows imports of critical severity.
pub open spec fn pe_critical() -> Seq<&'static str> {
    seq!["CreateRemoteThread", "WriteProcessMemory", "NtUnmapViewOfSection", "ZwUnmapViewOfSection",
        "QueueUserAPC", "RtlCreateUserThread"]
}
/// Windows imports of high severity.
pub open spec fn pe_high() -> Seq<&'static str> {
    seq!["VirtualAllocEx", "SetWindowsHookEx", "URLDownloadToFile", "WinExec", "AdjustTokenPrivileges"]
}
/// Windows imports of medium severity.
pub open spec fn pe_medium() -> Seq<&'static str> {
    seq!["CryptEncrypt", "CryptDecrypt", "InternetOpen", "InternetConnect", "ReadProcessMemory",
        "GetClipboardData"]
}

/// Unix imports of critical severity.
pub open spec fn elf_critical() -> Seq<&'static str> {
    seq!["ptrace", "memfd_create"]
}
/// Unix imports of high severity.
pub open spec fn elf_high() -> Seq<&'static str> {
    seq!["mprotect", "dlopen", "setuid", "chroot"]
}
/// Unix imports of medium severity.
pub open spec fn elf_medium() -> Seq<&'static str> {
    seq!["execve", "fork", "system", "popen", "socket", "connect"]
}

/// Severity of a Windows import.
pub open spec fn pe_import_severity(import: Seq<char>) -> Severity {
    classify_with(import, pe_critical(), pe_high(), pe_medium())
}

/// Severity of a Unix import.
pub open spec fn elf_import_severity(import: Seq<char>) -> Severity {
    classify_with(import, elf_critical(), elf_high(), elf_medium())
}

/// Severity of a suspicious Windows import.
pub fn classify_pe_import(import: &str) -> (s: Severity)
    ensures
        s == pe_import_severity(import@),
{
    let critical: [&str; 6] = ["CreateRemoteThread", "WriteProcessMemory", "NtUnmapViewOfSection",
        "ZwUnmapViewOfSection", "QueueUserAPC", "RtlCreateUserThread"];
    let high: [&str; 5] = ["VirtualAllocEx", "SetWindowsHookEx", "URLDownloadToFile", "WinExec",
        "AdjustTokenPrivileges"];
    let medium: [&str; 6] = ["CryptEncrypt", "CryptDecrypt", "InternetOpen", "InternetConnect",
        "ReadProcessMemory", "GetClipboardData"];
    proof {
        assert(critical@ =~= pe_critical());
        assert(high@ =~= pe_high());
        assert(medium@ =~= pe_medium());
    }
    if any_contained(import, &critical) {
        Severity::Critical
    } else if any_contained(import, &high) {
        Severity::High
    } else if any_contained(import, &medium) {
        Severity::Medium
    } else {
        Severity::Low
    }
}

/// Severity of a suspicious Unix import.
pub fn classify_elf_import(import: &str) -> (s: Severity)
    ensures
        s == elf_import_severity(import@),
{
    let critical: [&str; 2] = ["ptrace", "memfd_create"];
    let high: [&str; 4] = ["mprotect", "dlopen", "setuid", "chroot"];
    let medium: [&str; 6] = ["execve", "fork", "system", "popen", "socket", "connect"];
    proof {
        assert(critical@ =~= elf_critical());
        assert(high@ =~= elf_high());
        assert(medium@ =~= elf_medium());
    }
    if any_contained(import, &critical) {
        Severity::Critical
    } else if any_contained(import, &high) {
        Severity::High
    } else if any_contained(import, &medium) {
        Severity::Medium
    } else {
        Severity::Low
    }
}

/// The entropy lies above 7.2.
pub open spec fn entropy_is_high(level: EntropyLevel) -> bool {
    level != EntropyLevel::Normal
}

/// The indicators of the suspicious imports, each with its severity.
pub open spec fn import_iocs(imports: Seq<Seq<char>>, windows: bool) -> Seq<(Seq<char>, Seq<char>, Severity, Seq<char>)> {
    imports.map_values(|imp: Seq<char>| ("Import suspect"@, imp,
        if windows { pe_import_severity(imp) } else { elf_import_severity(imp) },
        "Fonction API sensible : "@ + imp))
}

/// The indicators common to all formats: high entropy (its figure as
/// `entropy_text`), then each suspicious import.
pub open spec fn common_iocs(level: EntropyLevel, entropy_text: Seq<char>, imports: Seq<Seq<char>>, windows: bool)
    -> Seq<(Seq<char>, Seq<char>, Severity, Seq<char>)> {
    let head: Seq<(Seq<char>, Seq<char>, Severity, Seq<char>)> = if entropy_is_high(level) {
        seq![("Entropie"@, entropy_text,
            if level == EntropyLevel::Elevated { Severity::Medium } else { Severity::High },
            "Entropie élevée — possible packer ou chiffrement"@)]
    } else {
        seq![]
    };
    head + import_iocs(imports, windows)
}

/// The indicators common to all formats: high entropy, then each
/// suspicious import classified by the Windows (`windows`) or Unix lists.
pub fn build_common_iocs(level: EntropyLevel, entropy_text: &str, suspicious_imports: &Vec<String>, windows: bool)
    -> (r: Vec<IoC>)
    ensures
        iocs_view(r@) == common_iocs(level, entropy_text@, strings_view(suspicious_imports@), windows),
{
    let mut out: Vec<IoC> = Vec::new();
    if level != EntropyLevel::Normal {
        let sev = if level == EntropyLevel::Elevated { Severity::Medium } else { Severity::High };
        out.push(IoC::new("Entropie", entropy_text, sev, "Entropie élevée — possible packer ou chiffrement"));
    }
    let ghost head = iocs_view(out@);
    let ghost iv = strings_view(suspicious_imports@);
    let mut i: usize = 0;
    while i < suspicious_imports.len()
        invariant
            iv == strings_view(suspicious_imports@),
            i <= iv.len(),
            iocs_view(out@) == head + import_iocs(iv.take(i as int), windows),
        decreases iv.len() - i,
    {
        let imp = suspicious_imports[i].as_str();
        let sev = if windows { classify_pe_import(imp) } else { classify_elf_import(imp) };
        let desc = concat2("Fonction API sensible : ", imp);
        let ghost old = iocs_view(out@);
        out.push(IoC::new("Import suspect", imp, sev, desc.as_str()));
        proof {
            assert(iocs_view(out@) =~= old.push(("Import suspect"@, imp@, sev, "Fonction API sensible : "@ + imp@)));
            assert(import_iocs(iv.take(i + 1), windows) =~= import_iocs(iv.take(i as int), windows).push(
                ("Import suspect"@, imp@, sev, "Fonction API sensible : "@ + imp@)));
        }
        i += 1;
    }
    proof {
        assert(iv.take(iv.len() as int) =~= iv);
        assert(iocs_view(out@) =~= common_iocs(level, entropy_text@, iv, windows));
    }
    out
}

/// Name of a format in the report.
pub open spec fn format_name(f: BinaryFormat) -> Seq<char> {
    match f {
        BinaryFormat::Pe => "PE"@,
        BinaryFormat::Elf => "ELF"@,
        BinaryFormat::MachO => "Mach-O"@,
        BinaryFormat::MachOFat => "Mach-O (fat)"@,
    }
}

/// A reported section as a value.
pub open spec fn section_view(s: BinarySection) -> (Seq<char>, u64, u64) {
    (s.name@, s.virtual_size, s.raw_size)
}

/// A laid-out section as it is reported.
pub open spec fn raw_section_view(s: RawSection) -> (Seq<char>, u64, u64) {
    (s.name@, s.virtual_size, s.raw_size)
}

/// The list of suspicious functions for a format.
pub open spec fn suspicious_list(f: BinaryFormat) -> Seq<&'static str> {
    if f == BinaryFormat::Pe { suspicious_pe_imports() } else { suspicious_elf_imports() }
}

/// The indicators of an executable: the common ones, then a missing
/// signature (PE), stripped symbols (ELF) and packer signatures (PE, ELF).
pub open spec fn binary_iocs(layout: BinaryLayout, data: Seq<u8>, level: EntropyLevel, entropy_text: Seq<char>)
    -> Seq<(Seq<char>, Seq<char>, Severity, Seq<char>)> {
    let f = layout.format;
    let susp = suspicious_of(strings_view(layout.imports@), suspicious_list(f));
    let a = common_iocs(level, entropy_text, susp, f == BinaryFormat::Pe);
    let b = if f == BinaryFormat::Pe && !layout.is_signed {
        a.push(("Signature"@, "Non signé"@, Severity::Low, "L'exécutable ne possède pas de signature numérique"@))
    } else {
        a
    };
    let c = if f == BinaryFormat::Elf && layout.stripped {
        b.push(("ELF"@, "Binaire strippé"@, Severity::Low, "Aucun symbole — binaire strippé (fréquent pour malware Linux)"@))
    } else {
        b
    };
    if f == BinaryFormat::Pe || f == BinaryFormat::Elf { c + packer_iocs(data) } else { c }
}

/// The findings on an executable: its description and indicators.
pub open spec fn binary_findings_hold(
    info: BinaryInfo,
    iocs: Seq<IoC>,
    layout: BinaryLayout,
    data: Seq<u8>,
    level: EntropyLevel,
    entropy_text: Seq<char>,
) -> bool {
    &&& info.format@ == format_name(layout.format)
    &&& info.entropy_level == level
    &&& if layout.format == BinaryFormat::MachOFat {
        &&& !info.is_64bit && !info.is_signed && !info.is_packed
        &&& info.sections@.len() == 0 && info.imports@.len() == 0 && info.suspicious_imports@.len() == 0
        &&& info.entry_point == 0
        &&& iocs.len() == 0
    } else {
        let susp = suspicious_of(strings_view(layout.imports@), suspicious_list(layout.format));
        &&& info.is_64bit == layout.is_64bit
        &&& info.is_signed == layout.is_signed
        &&& info.sections@.map_values(|s: BinarySection| section_view(s))
            == layout.sections@.map_values(|s: RawSection| raw_section_view(s))
        &&& strings_view(info.imports@) == strings_view(layout.imports@)
        &&& info.entry_point == layout.entry_point
        &&& strings_view(info.suspicious_imports@) == susp
        &&& info.is_packed == (entropy_is_high(level)
            || (layout.format != BinaryFormat::MachO && first_packer(data, 0) is Some))
        &&& iocs_view(iocs) == binary_iocs(layout, data, level, entropy_text)
    }
}

fn copy_strings(v: &Vec<String>) -> (r: Vec<String>)
    ensures
        strings_view(r@) == strings_view(v@),
{
    let mut out: Vec<String> = Vec::new();
    let mut i: usize = 0;
    while i < v.len()
        invariant
            i <= v@.len(),
            strings_view(out@) == strings_view(v@).take(i as int),
        decreases v@.len() - i,
    {
        let ghost old = strings_view(out@);
        out.push(clone_string(&v[i]));
        proof {
            assert(strings_view(out@) =~= old.push(v@[i as int]@));
            assert(strings_view(v@).take(i + 1) =~= strings_view(v@).take(i as int).push(v@[i as int]@));
        }
        i += 1;
    }
    proof {
        assert(strings_view(v@).take(v@.len() as int) =~= strings_view(v@));
    }
    out
}

fn report_sections(v: &Vec<RawSection>) -> (r: Vec<BinarySection>)
    ensures
        r@.map_values(|s: BinarySection| section_view(s)) == v@.map_values(|s: RawSection| raw_section_view(s)),
{
    let mut out: Vec<BinarySection> = Vec::new();
    let mut i: usize = 0;
    while i < v.len()
        invariant
            i <= v@.len(),
            out@.map_values(|s: BinarySection| section_view(s))
                == v@.take(i as int).map_values(|s: RawSection| raw_section_view(s)),
        decreases v@.len() - i,
    {
        let ghost old = out@.map_values(|s: BinarySection| section_view(s));
        let sec = &v[i];
        out.push(BinarySection { name: clone_string(&sec.name), virtual_size: sec.virtual_size, raw_size: sec.raw_size });
        proof {
            assert(out@.map_values(|s: BinarySection| section_view(s)) =~= old.push(raw_section_view(v@[i as int])));
            assert(v@.take(i + 1).map_values(|s: RawSection| raw_section_view(s))
                =~= v@.take(i as int).map_values(|s: RawSection| raw_section_view(s)).push(raw_section_view(v@[i as int])));
        }
        i += 1;
    }
    proof {
        assert(v@.take(v@.len() as int) =~= v@);
    }
    out
}

/// Analyses a parsed executable: suspicious imports, packer signatures and
/// the entropy band (with its figure as `entropy_text`), giving its
/// description and indicators.
pub fn analyze_binary(layout: &BinaryLayout, raw_bytes: &[u8], level: EntropyLevel, entropy_text: &str)
    -> (r: (BinaryInfo, Vec<IoC>))
    ensures
        binary_findings_hold(r.0, r.1@, *layout, raw_bytes@, level, entropy_text@),
{
    if layout.format == BinaryFormat::MachOFat {
        let info = BinaryInfo {
            format: "Mach-O (fat)".to_owned(),
            is_64bit: false,
            is_signed: false,
            sections: Vec::new(),
            imports: Vec::new(),
            entry_point: 0,
            entropy_level: level,
            suspicious_imports: Vec::new(),
            is_packed: false,
        };
        return (info, Vec::new());
    }
    let format_name = match layout.format {
        BinaryFormat::Pe => "PE",
        BinaryFormat::Elf => "ELF",
        _ => "Mach-O",
    };
    let windows = layout.format == BinaryFormat::Pe;
    let pe_list: [&str; 28] = [
        "VirtualAlloc", "VirtualAllocEx", "WriteProcessMemory", "CreateRemoteThread", "NtUnmapViewOfSection",
        "ZwUnmapViewOfSection", "SetWindowsHookEx", "GetAsyncKeyState", "CryptEncrypt", "CryptDecrypt",
        "InternetOpen", "InternetConnect", "URLDownloadToFile", "ShellExecute", "WinExec", "CreateProcess",
        "OpenProcess", "ReadProcessMemory", "IsDebuggerPresent", "CheckRemoteDebuggerPresent",
        "NtQueryInformationProcess", "QueueUserAPC", "RtlCreateUserThread", "AdjustTokenPrivileges",
        "CryptAcquireContext", "GetClipboardData", "BitBlt", "RegSetValue",
    ];
    let elf_list: [&str; 13] = [
        "ptrace", "execve", "fork", "dlopen", "mprotect", "memfd_create", "setuid", "setgid", "chroot",
        "socket", "connect", "system", "popen",
    ];
    proof {
        assert(pe_list@ =~= suspicious_pe_imports());
        assert(elf_list@ =~= suspicious_elf_imports());
    }
    let suspicious_imports = if windows {
        filter_suspicious(&layout.imports, &pe_list)
    } else {
        filter_suspicious(&layout.imports, &elf_list)
    };
    let packer = if layout.format == BinaryFormat::MachO { false } else { detect_packer(raw_bytes).is_some() };
    let is_packed = packer || level != EntropyLevel::Normal;
    let mut ioc_list = build_common_iocs(level, entropy_text, &suspicious_imports, windows);
    if windows && !layout.is_signed {
        ioc_list.push(IoC::new("Signature", "Non signé", Severity::Low,
            "L'exécutable ne possède pas de signature numérique"));
    }
    if layout.format == BinaryFormat::Elf && layout.stripped {
        ioc_list.push(IoC::new("ELF", "Binaire strippé", Severity::Low,
            "Aucun symbole — binaire strippé (fréquent pour malware Linux)"));
    }
    let ghost before_packers = iocs_view(ioc_list@);
    if layout.format != BinaryFormat::MachO {
        add_packer_iocs(raw_bytes, &mut ioc_list);
    }
    let info = BinaryInfo {
        format: format_name.to_owned(),
        is_64bit: layout.is_64bit,
        is_signed: layout.is_signed,
        sections: report_sections(&layout.sections),
        imports: copy_strings(&layout.imports),
        entry_point: layout.entry_point,
        entropy_level: level,
        suspicious_imports,
        is_packed,
    };
    proof {
        assert(iocs_view(ioc_list@) =~= binary_iocs(*layout, raw_bytes@, level, entropy_text@));
    }
    (info, ioc_list)
}

/// The kinds of object that `goblin` tells apart, as far as this analysis
/// goes.
#[derive(Debug, Clone, Copy, PartialEq, Eq, Structural)]
pub enum ObjectKind {
    Pe,
    Elf,
    Mach,
    Other,
}

/// The kind of object that `goblin::Object::parse` reads in the bytes;
/// `None` when it reports an error.
pub uninterp spec fn goblin_kind_of(data: Seq<u8>) -> Option<ObjectKind>;

/// The message of the error that `goblin::Object::parse` reports.
pub uninterp spec fn goblin_error_of(data: Seq<u8>) -> Seq<char>;

/// Calls `goblin::Object::parse` and tells the PE, ELF and Mach-O variants
/// apart (the others are `Other`); the error is kept as its message.
#[verifier::external_body]
fn goblin_kind(data: &[u8]) -> (r: Result<ObjectKind, String>)
    ensures
        match r {
            Ok(k) => goblin_kind_of(data@) == Some(k),
            Err(m) => goblin_kind_of(data@) is None && m@ == goblin_error_of(data@),
        },
{
    match goblin::Object::parse(data) {
        Ok(goblin::Object::PE(_)) => Ok(ObjectKind::Pe),
        Ok(goblin::Object::Elf(_)) => Ok(ObjectKind::Elf),
        Ok(goblin::Object::Mach(_)) => Ok(ObjectKind::Mach),
        Ok(_) => Ok(ObjectKind::Other),
        Err(e) => Err(e.to_string()),
    }
}

/// A PE section header as read.
pub struct PeSectionRaw {
    pub name: Vec<u8>,
    pub offset: u32,
    pub size: u32,
    pub virtual_size: u32,
}

/// An ELF section header as read, its name looked up in the section string
/// table.
pub struct ElfSectionRaw {
    pub name: Option<String>,
    pub offset: u64,
    pub size: u64,
    pub sh_type: u32,
}

/// A Mach-O segment as read.
pub struct MachSegmentRaw {
    pub name: Option<String>,
    pub fileoff: u64,
    pub filesize: u64,
    pub vmsize: u64,
}

/// A PE section header as a value: name bytes, file offset, size in the
/// file, size in memory.
pub open spec fn pe_section_view(s: PeSectionRaw) -> (Seq<u8>, u32, u32, u32) {
    (s.name@, s.offset, s.size, s.virtual_size)
}

/// An optional text as a value.
pub open spec fn opt_text(o: Option<String>) -> Option<Seq<char>> {
    match o {
        Some(s) => Some(s@),
        None => None,
    }
}

/// An ELF section header as a value: name, offset, size, type.
pub open spec fn elf_section_view(s: ElfSectionRaw) -> (Option<Seq<char>>, u64, u64, u32) {
    (opt_text(s.name), s.offset, s.size, s.sh_type)
}

/// A Mach-O segment as a value: name, file offset, size in the file, size
/// in memory.
pub open spec fn mach_segment_view(s: MachSegmentRaw) -> (Option<Seq<char>>, u64, u64, u64) {
    (opt_text(s.name), s.fileoff, s.filesize, s.vmsize)
}

/// The data directories of a PE as values.
pub open spec fn dirs_view(d: Option<Vec<Option<u32>>>) -> Option<Seq<Option<u32>>> {
    match d {
        Some(v) => Some(v@),
        None => None,
    }
}

/// What `goblin::pe::PE::parse` reads of the header: `is_64`, `entry`, and
/// the virtual address of each data directory of the optional header.
pub uninterp spec fn pe_header_of(data: Seq<u8>) -> Option<(bool, u64, Option<Seq<Option<u32>>>)>;

/// The section headers that `goblin::pe::PE::parse` reads.
pub uninterp spec fn pe_sections_of(data: Seq<u8>) -> Option<Seq<(Seq<u8>, u32, u32, u32)>>;

/// The import names that `goblin::pe::PE::parse` reads.
pub uninterp spec fn pe_imports_of(data: Seq<u8>) -> Option<Seq<Seq<char>>>;

/// Calls `goblin::pe::PE::parse` and reads `is_64`, `entry` and the
/// virtual addresses of the data directories (`None` for an absent one;
/// `None` overall without an optional header). `Object::parse` reads a PE
/// with this same call, so the read succeeds wherever it found one.
#[verifier::external_body]
fn pe_header_read(data: &[u8]) -> (r: Option<(bool, u64, Option<Vec<Option<u32>>>)>)
    ensures
        match r {
            Some(h) => pe_header_of(data@) == Some((h.0, h.1, dirs_view(h.2))),
            None => pe_header_of(data@) is None,
        },
        goblin_kind_of(data@) == Some(ObjectKind::Pe) ==> r is Some,
{
    let pe = goblin::pe::PE::parse(data).ok()?;
    let dirs = pe.header.optional_header.map(|oh| {
        oh.data_directories.data_directories.iter().map(|e| e.as_ref().map(|(_, d)| d.virtual_address)).collect()
    });
    Some((pe.is_64, pe.entry as u64, dirs))
}

/// Calls `goblin::pe::PE::parse` and reads the section headers.
#[verifier::external_body]
fn pe_sections_read(data: &[u8]) -> (r: Option<Vec<PeSectionRaw>>)
    ensures
        match r {
            Some(v) => pe_sections_of(data@) == Some(v@.map_values(|s: PeSectionRaw| pe_section_view(s))),
            None => pe_sections_of(data@) is None,
        },
        goblin_kind_of(data@) == Some(ObjectKind::Pe) ==> r is Some,
{
    let pe = goblin::pe::PE::parse(data).ok()?;
    Some(pe.sections.iter().map(|s| PeSectionRaw {
        name: s.name.to_vec(),
        offset: s.pointer_to_raw_data,
        size: s.size_of_raw_data,
        virtual_size: s.virtual_size,
    }).collect())
}

/// Calls `goblin::pe::PE::parse` and reads the name of each import.
#[verifier::external_body]
fn pe_imports_read(data: &[u8]) -> (r: Option<Vec<String>>)
    ensures
        match r {
            Some(v) => pe_imports_of(data@) == Some(strings_view(v@)),
            None => pe_imports_of(data@) is None,
        },
        goblin_kind_of(data@) == Some(ObjectKind::Pe) ==> r is Some,
{
    let pe = goblin::pe::PE::parse(data).ok()?;
    Some(pe.imports.iter().map(|i| i.name.to_string()).collect())
}

/// What `goblin::elf::Elf::parse` reads of the header: `is_64`, `entry`,
/// and the numbers of dynamic and of static symbols.
pub uninterp spec fn elf_header_of(data: Seq<u8>) -> Option<(bool, u64, nat, nat)>;

/// The section headers that `goblin::elf::Elf::parse` reads, each name
/// looked up in the section-name table.
pub uninterp spec fn elf_sections_of(data: Seq<u8>) -> Option<Seq<(Option<Seq<char>>, u64, u64, u32)>>;

/// The dynamic symbols that `goblin::elf::Elf::parse` reads: whether each
/// is an import, and its name looked up in the dynamic string table.
pub uninterp spec fn elf_dynsyms_of(data: Seq<u8>) -> Option<Seq<(bool, Option<Seq<char>>)>>;

/// Calls `goblin::elf::Elf::parse` and reads `is_64`, `entry` and the
/// numbers of dynamic and static symbols. `Object::parse` reads an ELF with
/// this same call, so the read succeeds wherever it found one.
#[verifier::external_body]
fn elf_header_read(data: &[u8]) -> (r: Option<(bool, u64, usize, usize)>)
    ensures
        match r {
            Some(h) => elf_header_of(data@) == Some((h.0, h.1, h.2 as nat, h.3 as nat)),
            None => elf_header_of(data@) is None,
        },
        goblin_kind_of(data@) == Some(ObjectKind::Elf) ==> r is Some,
{
    let elf = goblin::elf::Elf::parse(data).ok()?;
    Some((elf.is_64, elf.entry, elf.dynsyms.len(), elf.syms.len()))
}

/// Calls `goblin::elf::Elf::parse` and reads the section headers, each
/// name with `Strtab::get_at` in the section-name table.
#[verifier::external_body]
fn elf_sections_read(data: &[u8]) -> (r: Option<Vec<ElfSectionRaw>>)
    ensures
        match r {
            Some(v) => elf_sections_of(data@) == Some(v@.map_values(|s: ElfSectionRaw| elf_section_view(s))),
            None => elf_sections_of(data@) is None,
        },
        goblin_kind_of(data@) == Some(ObjectKind::Elf) ==> r is Some,
{
    let elf = goblin::elf::Elf::parse(data).ok()?;
    Some(elf.section_headers.iter().map(|sh| ElfSectionRaw {
        name: elf.shdr_strtab.get_at(sh.sh_name).map(String::from),
        offset: sh.sh_offset,
        size: sh.sh_size,
        sh_type: sh.sh_type,
    }).collect())
}

/// The dynamic symbols as values.
pub open spec fn dynsyms_view(v: Seq<(bool, Option<String>)>) -> Seq<(bool, Option<Seq<char>>)> {
    v.map_values(|p: (bool, Option<String>)| (p.0, opt_text(p.1)))
}

/// Calls `goblin::elf::Elf::parse` and reads the dynamic symbols: whether
/// each is an import (`Sym::is_import`), and its name with `Strtab::get_at`
/// in the dynamic string table.
#[verifier::external_body]
fn elf_dynsyms_read(data: &[u8]) -> (r: Option<Vec<(bool, Option<String>)>>)
    ensures
        match r {
            Some(v) => elf_dynsyms_of(data@) == Some(dynsyms_view(v@)),
            None => elf_dynsyms_of(data@) is None,
        },
        goblin_kind_of(data@) == Some(ObjectKind::Elf) ==> r is Some,
{
    let elf = goblin::elf::Elf::parse(data).ok()?;
    Some(elf.dynsyms.iter().map(|sym| (sym.is_import(), elf.dynstrtab.get_at(sym.st_name).map(String::from))).collect())
}

/// What an architecture of a universal Mach-O is, as `MultiArch::get`
/// gives it.
#[derive(Debug, Clone, Copy, PartialEq, Eq, Structural)]
pub enum ArchKind {
    /// A Mach-O binary.
    MachO,
    /// A static archive.
    Archive,
    /// `MultiArch::get` reports an error.
    Unreadable,
}

/// The architectures as values.
pub open spec fn shape_view(r: Option<Option<Vec<ArchKind>>>) -> Option<Option<Seq<ArchKind>>> {
    match r {
        Some(Some(v)) => Some(Some(v@)),
        Some(None) => Some(None),
        None => None,
    }
}

/// What `goblin::mach::Mach::parse` reads of the bytes: `None` when it
/// fails, `Some(None)` for a single-architecture binary, and for a
/// universal one the kind of each of its architectures, in order.
pub uninterp spec fn mach_shape_of(data: Seq<u8>) -> Option<Option<Seq<ArchKind>>>;

/// Calls `goblin::mach::Mach::parse` and tells its variants apart; for a
/// universal binary, calls `MultiArch::get` on each index below `narches`
/// and tells its result apart. `Object::parse` reads a Mach-O with this
/// same call, so the read succeeds wherever it found one.
#[verifier::external_body]
fn mach_shape_read(data: &[u8]) -> (r: Option<Option<Vec<ArchKind>>>)
    ensures
        shape_view(r) == mach_shape_of(data@),
        goblin_kind_of(data@) == Some(ObjectKind::Mach) ==> r is Some,
{
    match goblin::mach::Mach::parse(data).ok()? {
        goblin::mach::Mach::Binary(_) => Some(None),
        goblin::mach::Mach::Fat(f) => Some(Some((0..f.narches).map(|i| match f.get(i) {
            Ok(goblin::mach::SingleArch::MachO(_)) => ArchKind::MachO,
            Ok(goblin::mach::SingleArch::Archive(_)) => ArchKind::Archive,
            Err(_) => ArchKind::Unreadable,
        }).collect())),
    }
}

/// The architecture index names a Mach-O binary of the bytes: `None` for a
/// single-architecture binary, `Some(i)` for architecture `i` of a
/// universal one.
pub open spec fn arch_is_macho(data: Seq<u8>, arch: Option<nat>) -> bool {
    match (mach_shape_of(data), arch) {
        (Some(None), None) => true,
        (Some(Some(kinds)), Some(i)) => i < kinds.len() && kinds[i as int] == ArchKind::MachO,
        _ => false,
    }
}

/// An optional index as a value.
pub open spec fn arch_nat(arch: Option<usize>) -> Option<nat> {
    match arch {
        Some(i) => Some(i as nat),
        None => None,
    }
}

/// What `goblin` reads of the Mach-O binary that `arch` names (see
/// `arch_is_macho`): `is_64` and `entry`.
pub uninterp spec fn macho_header_of(data: Seq<u8>, arch: Option<nat>) -> Option<(bool, u64)>;

/// The segments of the Mach-O binary that `arch` names.
pub uninterp spec fn macho_segments_of(data: Seq<u8>, arch: Option<nat>) -> Option<Seq<(Option<Seq<char>>, u64, u64, u64)>>;

/// The import names of the Mach-O binary that `arch` names; `None` also
/// when `MachO::imports` reports an error.
pub uninterp spec fn macho_imports_of(data: Seq<u8>, arch: Option<nat>) -> Option<Seq<Seq<char>>>;

/// Calls `goblin::mach::Mach::parse` and takes the binary that `arch`
/// names: the single-architecture binary for `None`, the Mach-O that
/// `MultiArch::get(i)` gives for `Some(i)`; reads its `is_64` and `entry`.
/// The calls are those of `mach_shape_read`, so the read succeeds wherever
/// that one found a Mach-O binary there.
#[verifier::external_body]
fn macho_header_read(data: &[u8], arch: Option<usize>) -> (r: Option<(bool, u64)>)
    ensures
        r == macho_header_of(data@, arch_nat(arch)),
        arch_is_macho(data@, arch_nat(arch)) ==> r is Some,
{
    let m = match (goblin::mach::Mach::parse(data).ok()?, arch) {
        (goblin::mach::Mach::Binary(b), None) => b,
        (goblin::mach::Mach::Fat(f), Some(i)) => match f.get(i).ok()? {
            goblin::mach::SingleArch::MachO(b) => b,
            goblin::mach::SingleArch::Archive(_) => return None,
        },
        _ => return None,
    };
    Some((m.is_64, m.entry))
}

/// Takes the binary as `macho_header_read` does and reads its segments,
/// each name from `Segment::name`.
#[verifier::external_body]
fn macho_segments_read(data: &[u8], arch: Option<usize>) -> (r: Option<Vec<MachSegmentRaw>>)
    ensures
        match r {
            Some(v) => macho_segments_of(data@, arch_nat(arch)) == Some(v@.map_values(|s: MachSegmentRaw| mach_segment_view(s))),
            None => macho_segments_of(data@, arch_nat(arch)) is None,
        },
        arch_is_macho(data@, arch_nat(arch)) ==> r is Some,
{
    let m = match (goblin::mach::Mach::parse(data).ok()?, arch) {
        (goblin::mach::Mach::Binary(b), None) => b,
        (goblin::mach::Mach::Fat(f), Some(i)) => match f.get(i).ok()? {
            goblin::mach::SingleArch::MachO(b) => b,
            goblin::mach::SingleArch::Archive(_) => return None,
        },
        _ => return None,
    };
    Some(m.segments.iter().map(|seg| MachSegmentRaw {
        name: seg.name().ok().map(String::from),
        fileoff: seg.fileoff,
        filesize: seg.filesize,
        vmsize: seg.vmsize,
    }).collect())
}

/// Takes the binary as `macho_header_read` does and calls
/// `MachO::imports`, taking the name of each import.
#[verifier::external_body]
fn macho_imports_read(data: &[u8], arch: Option<usize>) -> (r: Option<Vec<String>>)
    ensures
        match r {
            Some(v) => macho_imports_of(data@, arch_nat(arch)) == Some(strings_view(v@)),
            None => macho_imports_of(data@, arch_nat(arch)) is None,
        },
{
    let m = match (goblin::mach::Mach::parse(data).ok()?, arch) {
        (goblin::mach::Mach::Binary(b), None) => b,
        (goblin::mach::Mach::Fat(f), Some(i)) => match f.get(i).ok()? {
            goblin::mach::SingleArch::MachO(b) => b,
            goblin::mach::SingleArch::Archive(_) => return None,
        },
        _ => return None,
    };
    m.imports().ok().map(|imps| imps.iter().map(|i| i.name.to_string()).collect())
}

/// The architecture that the analysis reads: the binary itself, or the
/// first architecture of a universal binary when it is a Mach-O binary;
/// `None` when there is none to read.
pub open spec fn mach_pick(shape: Option<Seq<ArchKind>>) -> Option<Option<nat>> {
    match shape {
        None => Some(None),
        Some(kinds) => if kinds.len() > 0 && kinds[0] == ArchKind::MachO { Some(Some(0)) } else { None },
    }
}

/// The architecture that the analysis reads, from the architectures that
/// `goblin` reports.
pub fn mach_pick_exec(shape: &Option<Vec<ArchKind>>) -> (r: Option<Option<usize>>)
    ensures
        match r {
            Some(a) => mach_pick(match shape { Some(v) => Some(v@), None => None }) == Some(arch_nat(a)),
            None => mach_pick(match shape { Some(v) => Some(v@), None => None }) is None,
        },
{
    match shape {
        None => Some(None),
        Some(kinds) => if kinds.len() > 0 && kinds[0] == ArchKind::MachO { Some(Some(0)) } else { None },
    }
}

/// The text that `String::from_utf8_lossy` makes of the bytes.
pub uninterp spec fn utf8_lossy_of(bytes: Seq<u8>) -> Seq<char>;

/// Calls `String::from_utf8_lossy`: well-formed UTF-8 is decoded as it is;
/// what the replacement characters of other bytes are is named, not
/// restated.
#[verifier::external_body]
fn utf8_lossy(bytes: &[u8]) -> (r: String)
    ensures
        r@ == utf8_lossy_of(bytes@),
        vstd::utf8::valid_utf8(bytes@) ==> r@ == vstd::utf8::decode_utf8(bytes@),
{
    String::from_utf8_lossy(bytes).to_string()
}

/// Where a section's bytes lie in a file of `len` bytes: from its offset to
/// the end of its size, cut at the end of the file; empty when it has no
/// bytes in the file or begins past the end.
pub open spec fn range_of(offset: u64, size: u64, in_file: bool, len: nat) -> (nat, nat) {
    if in_file && offset < len {
        (offset as nat, if offset + size < len { (offset + size) as nat } else { len })
    } else {
        (0, 0)
    }
}

/// Where a section's bytes lie in the file.
pub fn section_range(offset: u64, size: u64, in_file: bool, len: usize) -> (r: (usize, usize))
    ensures
        (r.0 as nat, r.1 as nat) == range_of(offset, size, in_file, len as nat),
        r.0 <= r.1 <= len,
{
    if in_file && offset < len as u64 {
        let end: u64 = if size < len as u64 - offset { offset + size } else { len as u64 };
        (offset as usize, end as usize)
    } else {
        (0, 0)
    }
}

/// ELF sections that take no room in the file (`SHT_NOBITS`).
pub open spec fn sht_nobits() -> u32 { 8 }

/// A laid-out section as a value: name, size in memory, size in the file,
/// and where its bytes lie.
pub open spec fn layout_section_view(s: RawSection) -> (Seq<char>, u64, u64, nat, nat) {
    (s.name@, s.virtual_size, s.raw_size, s.data_start as nat, s.data_end as nat)
}

/// The laid-out section of a PE section header in a file of `len` bytes:
/// its name decoded and stripped of NUL padding.
pub open spec fn pe_section_layout(s: (Seq<u8>, u32, u32, u32), len: nat) -> (Seq<char>, u64, u64, nat, nat) {
    let r = range_of(s.1 as u64, s.2 as u64, true, len);
    (trim_c(utf8_lossy_of(s.0), '\0'), s.3 as u64, s.2 as u64, r.0, r.1)
}

/// A name, or `?` when it could not be read.
pub open spec fn name_or_mark(n: Option<Seq<char>>) -> Seq<char> {
    match n {
        Some(t) => t,
        None => "?"@,
    }
}

/// The laid-out section of an ELF section header; a `SHT_NOBITS` section
/// has no bytes in the file.
pub open spec fn elf_section_layout(s: (Option<Seq<char>>, u64, u64, u32), len: nat) -> (Seq<char>, u64, u64, nat, nat) {
    let r = range_of(s.1, s.2, s.3 != sht_nobits(), len);
    (name_or_mark(s.0), s.2, s.2, r.0, r.1)
}

/// The laid-out section of a Mach-O segment.
pub open spec fn mach_segment_layout(s: (Option<Seq<char>>, u64, u64, u64), len: nat) -> (Seq<char>, u64, u64, nat, nat) {
    let r = range_of(s.1, s.2, true, len);
    (name_or_mark(s.0), s.3, s.2, r.0, r.1)
}

/// A PE is signed when its security data directory (the fifth) is present
/// with a non-zero address.
pub open spec fn pe_signed(dirs: Option<Seq<Option<u32>>>) -> bool {
    match dirs {
        Some(d) => d.len() > 4 && (d[4] matches Some(va) && va != 0),
        None => false,
    }
}

/// The names of the dynamic symbols that are imports and have a name.
pub open spec fn elf_import_names(syms: Seq<(bool, Option<Seq<char>>)>) -> Seq<Seq<char>>
    decreases syms.len(),
{
    if syms.len() == 0 {
        seq![]
    } else {
        let prev = elf_import_names(syms.drop_last());
        let s = syms.last();
        if s.0 && s.1 is Some { prev.push(s.1->0) } else { prev }
    }
}

/// The layout that `parse` gives for the bytes, from what `goblin` reads.
pub open spec fn layout_holds(l: BinaryLayout, data: Seq<u8>) -> bool {
    let len = data.len();
    match goblin_kind_of(data) {
        Some(ObjectKind::Pe) => {
            let h = pe_header_of(data)->0;
            &&& l.format == BinaryFormat::Pe
            &&& l.is_64bit == h.0
            &&& l.entry_point == h.1
            &&& l.is_signed == pe_signed(h.2)
            &&& l.sections@.map_values(|s: RawSection| layout_section_view(s))
                == pe_sections_of(data)->0.map_values(|s: (Seq<u8>, u32, u32, u32)| pe_section_layout(s, len))
            &&& strings_view(l.imports@) == pe_imports_of(data)->0
            &&& !l.stripped
        },
        Some(ObjectKind::Elf) => {
            let h = elf_header_of(data)->0;
            &&& l.format == BinaryFormat::Elf
            &&& l.is_64bit == h.0
            &&& l.entry_point == h.1
            &&& !l.is_signed
            &&& l.sections@.map_values(|s: RawSection| layout_section_view(s))
                == elf_sections_of(data)->0.map_values(
                |s: (Option<Seq<char>>, u64, u64, u32)| elf_section_layout(s, len),
            )
            &&& strings_view(l.imports@) == elf_import_names(elf_dynsyms_of(data)->0)
            &&& l.stripped == (h.2 == 0 && h.3 == 0)
        },
        Some(ObjectKind::Mach) => match mach_pick(mach_shape_of(data)->0) {
            Some(arch) => {
                let h = macho_header_of(data, arch)->0;
                &&& l.format == BinaryFormat::MachO
                &&& l.is_64bit == h.0
                &&& l.entry_point == h.1
                &&& !l.is_signed
                &&& l.sections@.map_values(|s: RawSection| layout_section_view(s))
                    == macho_segments_of(data, arch)->0.map_values(
                    |s: (Option<Seq<char>>, u64, u64, u64)| mach_segment_layout(s, len),
                )
                &&& strings_view(l.imports@) == match macho_imports_of(data, arch) {
                    Some(v) => v,
                    None => seq![],
                }
                &&& !l.stripped
            },
            None => {
                &&& l.format == BinaryFormat::MachOFat
                &&& !l.is_64bit && !l.is_signed && !l.stripped
                &&& l.sections@.len() == 0 && l.imports@.len() == 0
                &&& l.entry_point == 0
            },
        },
        _ => false,
    }
}

fn option_name(name: Option<String>) -> (r: String)
    ensures
        r@ == name_or_mark(opt_text(name)),
{
    match name {
        Some(n) => n,
        None => "?".to_owned(),
    }
}

/// Every section of the layout lies inside a file of `len` bytes.
pub open spec fn ranges_within(l: BinaryLayout, len: nat) -> bool {
    forall|i: int| 0 <= i < l.sections@.len() ==>
        (#[trigger] l.sections@[i]).data_start <= l.sections@[i].data_end <= len
}

fn pe_layout(header: (bool, u64, Option<Vec<Option<u32>>>), raw: &Vec<PeSectionRaw>, imports: Vec<String>, len: usize)
    -> (r: BinaryLayout)
    ensures
        r.format == BinaryFormat::Pe,
        r.is_64bit == header.0,
        r.entry_point == header.1,
        r.is_signed == pe_signed(dirs_view(header.2)),
        r.sections@.map_values(|s: RawSection| layout_section_view(s))
            == raw@.map_values(|s: PeSectionRaw| pe_section_layout(pe_section_view(s), len as nat)),
        strings_view(r.imports@) == strings_view(imports@),
        !r.stripped,
        ranges_within(r, len as nat),
{
    let is_signed = match &header.2 {
        Some(dirs) => dirs.len() > 4 && match dirs[4] {
            Some(va) => va != 0,
            None => false,
        },
        None => false,
    };
    let mut sections: Vec<RawSection> = Vec::new();
    let mut i: usize = 0;
    while i < raw.len()
        invariant
            i <= raw@.len(),
            sections@.map_values(|s: RawSection| layout_section_view(s))
                == raw@.take(i as int).map_values(|s: PeSectionRaw| pe_section_layout(pe_section_view(s), len as nat)),
            forall|k: int| 0 <= k < sections@.len() ==>
                (#[trigger] sections@[k]).data_start <= sections@[k].data_end <= len,
        decreases raw@.len() - i,
    {
        let sec = &raw[i];
        let decoded = chars_of(utf8_lossy(sec.name.as_slice()).as_str());
        let name = string_of(trim_char(decoded.as_slice(), '\0').as_slice());
        let (data_start, data_end) = section_range(sec.offset as u64, sec.size as u64, true, len);
        let ghost before = sections@.map_values(|s: RawSection| layout_section_view(s));
        let item = RawSection {
            name,
            virtual_size: sec.virtual_size as u64,
            raw_size: sec.size as u64,
            data_start,
            data_end,
        };
        sections.push(item);
        proof {
            assert(sections@.map_values(|s: RawSection| layout_section_view(s))
                =~= before.push(layout_section_view(item)));
            assert(raw@.take(i + 1).map_values(|s: PeSectionRaw| pe_section_layout(pe_section_view(s), len as nat))
                =~= raw@.take(i as int).map_values(|s: PeSectionRaw| pe_section_layout(pe_section_view(s), len as nat))
                .push(pe_section_layout(pe_section_view(*sec), len as nat)));
        }
        i += 1;
    }
    proof {
        assert(raw@.take(raw@.len() as int) =~= raw@);
    }
    BinaryLayout {
        format: BinaryFormat::Pe,
        is_64bit: header.0,
        is_signed,
        sections,
        imports,
        entry_point: header.1,
        stripped: false,
    }
}

fn elf_layout(header: (bool, u64, usize, usize), raw: &Vec<ElfSectionRaw>, syms: &Vec<(bool, Option<String>)>, len: usize)
    -> (r: BinaryLayout)
    ensures
        r.format == BinaryFormat::Elf,
        r.is_64bit == header.0,
        r.entry_point == header.1,
        !r.is_signed,
        r.sections@.map_values(|s: RawSection| layout_section_view(s))
            == raw@.map_values(|s: ElfSectionRaw| elf_section_layout(elf_section_view(s), len as nat)),
        strings_view(r.imports@) == elf_import_names(dynsyms_view(syms@)),
        r.stripped == (header.2 == 0 && header.3 == 0),
        ranges_within(r, len as nat),
{
    let mut sections: Vec<RawSection> = Vec::new();
    let mut i: usize = 0;
    while i < raw.len()
        invariant
            i <= raw@.len(),
            sections@.map_values(|s: RawSection| layout_section_view(s))
                == raw@.take(i as int).map_values(|s: ElfSectionRaw| elf_section_layout(elf_section_view(s), len as nat)),
            forall|k: int| 0 <= k < sections@.len() ==>
                (#[trigger] sections@[k]).data_start <= sections@[k].data_end <= len,
        decreases raw@.len() - i,
    {
        let sec = &raw[i];
        let name = option_name(sec.name.clone());
        let (data_start, data_end) = section_range(sec.offset, sec.size, sec.sh_type != 8, len);
        let ghost before = sections@.map_values(|s: RawSection| layout_section_view(s));
        let item = RawSection { name, virtual_size: sec.size, raw_size: sec.size, data_start, data_end };
        sections.push(item);
        proof {
            assert(sections@.map_values(|s: RawSection| layout_section_view(s))
                =~= before.push(layout_section_view(item)));
            assert(raw@.take(i + 1).map_values(|s: ElfSectionRaw| elf_section_layout(elf_section_view(s), len as nat))
                =~= raw@.take(i as int).map_values(|s: ElfSectionRaw| elf_section_layout(elf_section_view(s), len as nat))
                .push(elf_section_layout(elf_section_view(*sec), len as nat)));
        }
        i += 1;
    }
    proof {
        assert(raw@.take(raw@.len() as int) =~= raw@);
    }
    let mut imports: Vec<String> = Vec::new();
    let mut k: usize = 0;
    while k < syms.len()
        invariant
            k <= syms@.len(),
            strings_view(imports@) == elf_import_names(dynsyms_view(syms@.take(k as int))),
        decreases syms@.len() - k,
    {
        proof {
            assert(dynsyms_view(syms@.take(k + 1)).drop_last() =~= dynsyms_view(syms@.take(k as int)));
        }
        let ghost before = strings_view(imports@);
        if syms[k].0 {
            match &syms[k].1 {
                Some(n) => {
                    imports.push(n.clone());
                    proof {
                        assert(strings_view(imports@) =~= before.push(n@));
                    }
                },
                None => {},
            }
        }
        k += 1;
    }
    proof {
        assert(syms@.take(syms@.len() as int) =~= syms@);
    }
    BinaryLayout {
        format: BinaryFormat::Elf,
        is_64bit: header.0,
        is_signed: false,
        sections,
        imports,
        entry_point: header.1,
        stripped: header.2 == 0 && header.3 == 0,
    }
}

fn macho_layout(header: (bool, u64), raw: &Vec<MachSegmentRaw>, imports: Option<Vec<String>>, len: usize)
    -> (r: BinaryLayout)
    ensures
        r.format == BinaryFormat::MachO,
        r.is_64bit == header.0,
        r.entry_point == header.1,
        !r.is_signed,
        r.sections@.map_values(|s: RawSection| layout_section_view(s))
            == raw@.map_values(|s: MachSegmentRaw| mach_segment_layout(mach_segment_view(s), len as nat)),
        strings_view(r.imports@) == match imports {
            Some(v) => strings_view(v@),
            None => seq![],
        },
        !r.stripped,
        ranges_within(r, len as nat),
{
    let mut sections: Vec<RawSection> = Vec::new();
    let mut i: usize = 0;
    while i < raw.len()
        invariant
            i <= raw@.len(),
            sections@.map_values(|s: RawSection| layout_section_view(s))
                == raw@.take(i as int).map_values(|s: MachSegmentRaw| mach_segment_layout(mach_segment_view(s), len as nat)),
            forall|k: int| 0 <= k < sections@.len() ==>
                (#[trigger] sections@[k]).data_start <= sections@[k].data_end <= len,
        decreases raw@.len() - i,
    {
        let seg = &raw[i];
        let name = option_name(seg.name.clone());
        let (data_start, data_end) = section_range(seg.fileoff, seg.filesize, true, len);
        let ghost before = sections@.map_values(|s: RawSection| layout_section_view(s));
        let item = RawSection { name, virtual_size: seg.vmsize, raw_size: seg.filesize, data_start, data_end };
        sections.push(item);
        proof {
            assert(sections@.map_values(|s: RawSection| layout_section_view(s))
                =~= before.push(layout_section_view(item)));
            assert(raw@.take(i + 1).map_values(|s: MachSegmentRaw| mach_segment_layout(mach_segment_view(s), len as nat))
                =~= raw@.take(i as int).map_values(|s: MachSegmentRaw| mach_segment_layout(mach_segment_view(s), len as nat))
                .push(mach_segment_layout(mach_segment_view(*seg), len as nat)));
        }
        i += 1;
    }
    proof {
        assert(raw@.take(raw@.len() as int) =~= raw@);
    }
    let imports = match imports {
        Some(v) => v,
        None => Vec::new(),
    };
    BinaryLayout { format: BinaryFormat::MachO, is_64bit: header.0, is_signed: false, sections, imports, entry_point: header.1, stripped: false }
}

/// The result of parsing the bytes: a layout when `goblin` reads a PE, an
/// ELF or a Mach-O, as `layout_holds` describes it; otherwise a parse
/// error with `goblin`'s message, or "Format binaire non reconnu" for
/// another kind of object.
pub open spec fn parse_holds(r: Result<BinaryLayout, ScanError>, data: Seq<u8>) -> bool {
    match goblin_kind_of(data) {
        None => r matches Err(ScanError::BinaryParseError(m)) && m@ == goblin_error_of(data),
        Some(ObjectKind::Other) => r matches Err(ScanError::BinaryParseError(m)) && m@ == "Format binaire non reconnu"@,
        Some(_) => r matches Ok(l) && layout_holds(l, data) && ranges_within(l, data.len()),
    }
}

/// Parses an executable with `goblin`: PE, ELF, or Mach-O (the first
/// architecture of a universal binary). Fails with a parse error, with
/// `goblin`'s message, when it cannot read the bytes, and with "Format
/// binaire non reconnu" when it reads another kind of object.
pub fn parse(raw_bytes: &[u8]) -> (r: Result<BinaryLayout, ScanError>)
    ensures
        parse_holds(r, raw_bytes@),
{
    let len = raw_bytes.len();
    let ghost data = raw_bytes@;
    match goblin_kind(raw_bytes) {
        Err(msg) => Err(ScanError::BinaryParseError(msg)),
        Ok(ObjectKind::Pe) => {
            let header = pe_header_read(raw_bytes);
            let sections = pe_sections_read(raw_bytes);
            let imports = pe_imports_read(raw_bytes);
            match (header, sections, imports) {
                (Some(h), Some(s), Some(imp)) => {
                    let l = pe_layout(h, &s, imp, len);
                    proof {
                        assert(s@.map_values(|x: PeSectionRaw| pe_section_layout(pe_section_view(x), len as nat))
                            =~= s@.map_values(|x: PeSectionRaw| pe_section_view(x)).map_values(
                            |x: (Seq<u8>, u32, u32, u32)| pe_section_layout(x, data.len())));
                    }
                    Ok(l)
                },
                _ => Err(ScanError::BinaryParseError("Format binaire non reconnu".to_owned())),
            }
        },
        Ok(ObjectKind::Elf) => {
            let header = elf_header_read(raw_bytes);
            let sections = elf_sections_read(raw_bytes);
            let syms = elf_dynsyms_read(raw_bytes);
            match (header, sections, syms) {
                (Some(h), Some(s), Some(y)) => {
                    let l = elf_layout(h, &s, &y, len);
                    proof {
                        assert(s@.map_values(|x: ElfSectionRaw| elf_section_layout(elf_section_view(x), len as nat))
                            =~= s@.map_values(|x: ElfSectionRaw| elf_section_view(x)).map_values(
                            |x: (Option<Seq<char>>, u64, u64, u32)| elf_section_layout(x, data.len())));
                    }
                    Ok(l)
                },
                _ => Err(ScanError::BinaryParseError("Format binaire non reconnu".to_owned())),
            }
        },
        Ok(ObjectKind::Mach) => match mach_shape_read(raw_bytes) {
            Some(shape) => match mach_pick_exec(&shape) {
                Some(arch) => {
                    proof {
                        assert(arch_is_macho(data, arch_nat(arch)));
                    }
                    match (macho_header_read(raw_bytes, arch), macho_segments_read(raw_bytes, arch)) {
                        (Some(h), Some(s)) => {
                            let l = macho_layout(h, &s, macho_imports_read(raw_bytes, arch), len);
                            proof {
                                assert(s@.map_values(|x: MachSegmentRaw| mach_segment_layout(mach_segment_view(x), len as nat))
                                    =~= s@.map_values(|x: MachSegmentRaw| mach_segment_view(x)).map_values(
                                    |x: (Option<Seq<char>>, u64, u64, u64)| mach_segment_layout(x, data.len())));
                            }
                            Ok(l)
                        },
                        _ => Err(ScanError::BinaryParseError("Format binaire non reconnu".to_owned())),
                    }
                },
                None => Ok(BinaryLayout {
                    format: BinaryFormat::MachOFat,
                    is_64bit: false,
                    is_signed: false,
                    sections: Vec::new(),
                    imports: Vec::new(),
                    entry_point: 0,
                    stripped: false,
                }),
            },
            None => Err(ScanError::BinaryParseError("Format binaire non reconnu".to_owned())),
        },
        Ok(ObjectKind::Other) => Err(ScanError::BinaryParseError("Format binaire non reconnu".to_owned())),
    }
}

/// Whether an import is suspicious does not depend on the letter case of
/// its name: two names that lower-case alike are both suspicious or both not.
pub proof fn suspicious_imports_ignore_case(n1: Seq<char>, n2: Seq<char>, list: Seq<&str>)
    requires
        unicode_lower(n1) == unicode_lower(n2),
    ensures
        is_suspicious(n1, list) == is_suspicious(n2, list),
{
}

} // verus!
