//! The records a scan produces.
//!
//! Entropy figures are floating-point in the report; the library holds the
//! band that a figure falls in (see [`EntropyLevel`]) and leaves the figure
//! itself to the caller.

use vstd::prelude::*;

verus! {

/// Overall judgement of a scanned file.
#[derive(Debug, Clone, Copy, PartialEq, Eq, Structural)]
pub enum Verdict {
    Safe,
    Suspicious,
    Malicious,
    Unknown,
}

/// How serious an indicator is.
#[derive(Debug, Clone, Copy, PartialEq, Eq, Structural)]
pub enum Severity {
    Low,
    Medium,
    High,
    Critical,
}

/// The band of a Shannon entropy figure (bits per byte, 0 to 8):
/// `Normal` up to 7.2, `Elevated` above 7.2 up to 7.5, `High` above 7.5 up
/// to 7.8, `Extreme` above 7.8.
#[derive(Debug, Clone, Copy, PartialEq, Eq, Structural)]
pub enum EntropyLevel {
    Normal,
    Elevated,
    High,
    Extreme,
}

/// Hex digests of the file: MD5, SHA-1, SHA-256 and SHA-512.
#[derive(Debug, Clone)]
pub struct Hashes {
    pub md5: String,
    pub sha1: String,
    pub sha256: String,
    pub sha512: String,
}

/// A section (PE, ELF) or segment (Mach-O) of an executable.
#[derive(Debug, Clone)]
pub struct BinarySection {
    pub name: String,
    pub virtual_size: u64,
    pub raw_size: u64,
}

/// What the executable analysis found; the entropy is held as its band.
#[derive(Debug, Clone)]
pub struct BinaryInfo {
    /// "PE", "ELF", "Mach-O" or "Mach-O (fat)"
    pub format: String,
    pub is_64bit: bool,
    pub is_signed: bool,
    pub sections: Vec<BinarySection>,
    pub imports: Vec<String>,
    pub entry_point: u64,
    pub entropy_level: EntropyLevel,
    pub suspicious_imports: Vec<String>,
    pub is_packed: bool,
}

/// A script line that matched a dangerous pattern.
#[derive(Debug, Clone)]
pub struct ScriptMatchedLine {
    pub line_number: usize,
    pub pattern: String,
    pub line_content: String,
}

/// What the inspection of a script found.
#[derive(Debug, Clone)]
pub struct ScriptInfo {
    pub obfuscation_detected: bool,
    pub dangerous_calls: Vec<String>,
    pub base64_blobs_count: usize,
    pub script_type: String,
    pub matched_lines: Vec<ScriptMatchedLine>,
    pub base64_samples: Vec<String>,
}

/// An archive member.
#[derive(Debug, Clone)]
pub struct ArchiveEntry {
    pub name: String,
    pub size: u64,
    pub compressed_size: u64,
    pub is_executable: bool,
    pub is_encrypted: bool,
}

/// What the inspection of a ZIP-based archive found.
#[derive(Debug, Clone)]
pub struct ArchiveInfo {
    pub archive_type: String,
    pub total_entries: usize,
    pub entries: Vec<ArchiveEntry>,
    pub has_nested_executable: bool,
    pub has_double_extension: bool,
    pub has_encrypted_entries: bool,
    pub has_vba_macros: bool,
    pub vba_keywords: Vec<String>,
}

/// Threat markers found in a PDF.
#[derive(Debug, Clone)]
pub struct PdfInfo {
    pub has_javascript: bool,
    pub has_open_action: bool,
    pub has_launch_action: bool,
    pub has_embedded_files: bool,
    pub has_acroform: bool,
    pub suspicious_count: usize,
}

/// What the inspection of a Windows shortcut found.
#[derive(Debug, Clone)]
pub struct LnkInfo {
    pub target_hint: String,
    pub suspicious_args: Vec<String>,
}

/// Indicators pulled out of the printable strings of a file.
#[derive(Debug, Clone)]
pub struct ExtractedIoCs {
    pub urls: Vec<String>,
    pub ips: Vec<String>,
    pub emails: Vec<String>,
    pub btc_wallets: Vec<String>,
    pub onion_addresses: Vec<String>,
    pub registry_keys: Vec<String>,
}

/// Reputation figures from an online multi-engine service.
#[derive(Debug, Clone)]
pub struct VtResult {
    pub positives: u32,
    pub total: u32,
    pub permalink: String,
    pub scan_date: String,
    pub detection_names: Vec<String>,
}

/// A pattern rule that fired.
#[derive(Debug, Clone)]
pub struct YaraMatch {
    pub rule_name: String,
    pub description: String,
    pub severity: Severity,
    pub matched_strings: Vec<String>,
}

/// One indicator of compromise.
#[derive(Debug, Clone)]
pub struct IoC {
    pub ioc_type: String,
    pub value: String,
    pub severity: Severity,
    pub description: String,
}

/// A hit in the signature database.
#[derive(Debug, Clone)]
pub struct ClamavResult {
    pub malware_name: String,
    pub database: String,
}

/// Errors of the scanning library.
#[derive(Debug)]
pub enum ScanError {
    Io(String),
    BinaryParseError(String),
    HttpError(String),
    RateLimited,
    Internal(String),
}

/// An indicator as a value: type, value, severity, description.
pub open spec fn ioc_view(i: IoC) -> (Seq<char>, Seq<char>, Severity, Seq<char>) {
    (i.ioc_type@, i.value@, i.severity, i.description@)
}

/// The values of a list of indicators.
pub open spec fn iocs_view(l: Seq<IoC>) -> Seq<(Seq<char>, Seq<char>, Severity, Seq<char>)> {
    l.map_values(|i: IoC| ioc_view(i))
}

/// The character values of a list of strings.
pub open spec fn strings_view(l: Seq<String>) -> Seq<Seq<char>> {
    l.map_values(|s: String| s@)
}

impl IoC {
    /// An indicator from its four texts.
    pub fn new(ioc_type: &str, value: &str, severity: Severity, description: &str) -> (r: IoC)
        ensures
            ioc_view(r) == (ioc_type@, value@, severity, description@),
    {
        IoC {
            ioc_type: ioc_type.to_owned(),
            value: value.to_owned(),
            severity,
            description: description.to_owned(),
        }
    }
}

} // verus!
