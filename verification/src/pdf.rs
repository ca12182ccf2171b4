//! Threat markers of PDF documents: scripts, automatic actions, program
//! launches, embedded files and XFA forms.

use vstd::prelude::*;
use crate::text::{contains_bytes, seq_contains};
use crate::types::{iocs_view, IoC, PdfInfo, Severity};

verus! {

/// The name `marker` occurs among the bytes.
pub open spec fn has_marker(data: Seq<u8>, marker: &str) -> bool {
    seq_contains(data, vstd::utf8::encode_utf8(marker@))
}

/// `needle` occurs in `data`.
pub fn contains(data: &[u8], needle: &[u8]) -> (r: bool)
    ensures
        r == seq_contains(data@, needle@),
{
    contains_bytes(data, needle)
}

/// The indicators the markers give, in the order javascript, automatic
/// action, launch, embedded file, XFA form.
pub open spec fn pdf_iocs(info: PdfInfo) -> Seq<(Seq<char>, Seq<char>, Severity, Seq<char>)> {
    let a: Seq<(Seq<char>, Seq<char>, Severity, Seq<char>)> = if info.has_javascript {
        seq![("PDF"@, "/JavaScript"@, Severity::High, "Code JavaScript embarqué dans le PDF"@)]
    } else {
        seq![]
    };
    let b = if info.has_open_action {
        a.push(("PDF"@, "/OpenAction"@, if info.has_javascript { Severity::Critical } else { Severity::Medium },
            "Action automatique à l'ouverture du document"@))
    } else {
        a
    };
    let c = if info.has_launch_action {
        b.push(("PDF"@, "/Launch"@, Severity::Critical, "Lancement d'un programme externe depuis le PDF"@))
    } else {
        b
    };
    let d = if info.has_embedded_files {
        c.push(("PDF"@, "/EmbeddedFile"@, Severity::Medium, "Fichier(s) embarqué(s) dans le PDF"@))
    } else {
        c
    };
    if info.has_acroform {
        d.push(("PDF"@, "/AcroForm + /XFA"@, Severity::Medium, "Formulaire XFA — vecteur d'exploit connu"@))
    } else {
        d
    }
}

/// How many of the five markers are set.
pub open spec fn flag_count(info: PdfInfo) -> nat {
    (if info.has_javascript { 1nat } else { 0nat }) + (if info.has_open_action { 1nat } else { 0nat })
        + (if info.has_launch_action { 1nat } else { 0nat }) + (if info.has_embedded_files { 1nat } else { 0nat })
        + (if info.has_acroform { 1nat } else { 0nat })
}

/// The markers found in a PDF, their count, and one indicator per marker.
pub open spec fn pdf_findings_hold(info: PdfInfo, iocs: Seq<IoC>, data: Seq<u8>) -> bool {
    &&& info.has_javascript == (has_marker(data, "/JavaScript") || has_marker(data, "/JS"))
    &&& info.has_open_action == (has_marker(data, "/OpenAction") || has_marker(data, "/AA"))
    &&& info.has_launch_action == has_marker(data, "/Launch")
    &&& info.has_embedded_files == (has_marker(data, "/EmbeddedFile") || has_marker(data, "/Filespec"))
    &&& info.has_acroform == (has_marker(data, "/AcroForm") && has_marker(data, "/XFA"))
    &&& info.suspicious_count == flag_count(info)
    &&& iocs_view(iocs) == pdf_iocs(info)
}

/// Looks for the threat markers of a PDF and reports each one found.
pub fn analyze(data: &[u8]) -> (r: (PdfInfo, Vec<IoC>))
    ensures
        pdf_findings_hold(r.0, r.1@, data@),
{
    let has_javascript = contains(data, "/JavaScript".as_bytes()) || contains(data, "/JS".as_bytes());
    let has_open_action = contains(data, "/OpenAction".as_bytes()) || contains(data, "/AA".as_bytes());
    let has_launch_action = contains(data, "/Launch".as_bytes());
    let has_embedded_files = contains(data, "/EmbeddedFile".as_bytes()) || contains(data, "/Filespec".as_bytes());
    let has_acroform = contains(data, "/AcroForm".as_bytes()) && contains(data, "/XFA".as_bytes());

    let mut ioc_list: Vec<IoC> = Vec::new();
    let mut suspicious_count: usize = 0;

    if has_javascript {
        suspicious_count += 1;
        ioc_list.push(IoC::new("PDF", "/JavaScript", Severity::High, "Code JavaScript embarqué dans le PDF"));
    }
    if has_open_action {
        suspicious_count += 1;
        let sev = if has_javascript { Severity::Critical } else { Severity::Medium };
        ioc_list.push(IoC::new("PDF", "/OpenAction", sev, "Action automatique à l'ouverture du document"));
    }
    if has_launch_action {
        suspicious_count += 1;
        ioc_list.push(IoC::new("PDF", "/Launch", Severity::Critical, "Lancement d'un programme externe depuis le PDF"));
    }
    if has_embedded_files {
        suspicious_count += 1;
        ioc_list.push(IoC::new("PDF", "/EmbeddedFile", Severity::Medium, "Fichier(s) embarqué(s) dans le PDF"));
    }
    if has_acroform {
        suspicious_count += 1;
        ioc_list.push(IoC::new("PDF", "/AcroForm + /XFA", Severity::Medium, "Formulaire XFA — vecteur d'exploit connu"));
    }
    let info = PdfInfo {
        has_javascript,
        has_open_action,
        has_launch_action,
        has_embedded_files,
        has_acroform,
        suspicious_count,
    };
    proof {
        assert(iocs_view(ioc_list@) =~= pdf_iocs(info));
    }
    (info, ioc_list)
}

/// The count of suspicious markers equals the number of indicators reported.
pub proof fn pdf_count_matches_indicators(info: PdfInfo)
    ensures
        pdf_iocs(info).len() == flag_count(info),
{
}

} // verus!
