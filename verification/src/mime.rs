//! File-type detection from magic bytes, and the category that decides which
//! analyzer inspects a file.

use vstd::prelude::*;
use crate::text::{
    after_last, after_last_char, any_contained, any_equal, chars_of, contains_any, ends_with_chars,
    is_one_of, is_valid_utf8, seq_ends_with, seq_starts_with, starts_with_bytes, str_eq, string_of,
    to_lowercase, unicode_lower,
};

verus! {

/// The kind of file, as far as the choice of analyzer goes.
#[derive(Debug, Clone, Copy, PartialEq, Eq, Structural)]
pub enum FileCategory {
    Pe,
    Elf,
    MachO,
    Script,
    Archive,
    OfficeDoc,
    Pdf,
    Lnk,
    Document,
    Other,
}

/// Display name of a category.
pub open spec fn category_name(c: FileCategory) -> Seq<char> {
    match c {
        FileCategory::Pe => "Exécutable Windows (PE)"@,
        FileCategory::Elf => "Exécutable Linux (ELF)"@,
        FileCategory::MachO => "Exécutable macOS (Mach-O)"@,
        FileCategory::Script => "Script"@,
        FileCategory::Archive => "Archive"@,
        FileCategory::OfficeDoc => "Document Office"@,
        FileCategory::Pdf => "PDF"@,
        FileCategory::Lnk => "Raccourci Windows"@,
        FileCategory::Document => "Document"@,
        FileCategory::Other => "Autre"@,
    }
}

impl FileCategory {
    /// Display name of the category.
    pub fn as_str(&self) -> (s: &'static str)
        ensures
            s@ == category_name(*self),
    {
        match self {
            FileCategory::Pe => "Exécutable Windows (PE)",
            FileCategory::Elf => "Exécutable Linux (ELF)",
            FileCategory::MachO => "Exécutable macOS (Mach-O)",
            FileCategory::Script => "Script",
            FileCategory::Archive => "Archive",
            FileCategory::OfficeDoc => "Document Office",
            FileCategory::Pdf => "PDF",
            FileCategory::Lnk => "Raccourci Windows",
            FileCategory::Document => "Document",
            FileCategory::Other => "Autre",
        }
    }
}

/// The media type that the `infer` crate recognises in the bytes, if any.
pub uninterp spec fn infer_mime_of(data: Seq<u8>) -> Option<Seq<char>>;

/// Calls `infer::get` and takes the media type of the kind it finds; the
/// recognition rules of the crate are named, not restated.
#[verifier::external_body]
fn infer_mime(data: &[u8]) -> (r: Option<String>)
    ensures
        match r {
            Some(m) => infer_mime_of(data@) == Some(m@),
            None => infer_mime_of(data@) is None,
        },
{
    infer::get(data).map(|kind| kind.mime_type().to_string())
}

/// `MZ`, the DOS/PE header.
pub open spec fn magic_mz() -> Seq<u8> { seq![0x4du8, 0x5au8] }
/// `\x7fELF`.
pub open spec fn magic_elf() -> Seq<u8> { seq![0x7fu8, 0x45u8, 0x4cu8, 0x46u8] }
/// `%PDF`.
pub open spec fn magic_pdf() -> Seq<u8> { seq![0x25u8, 0x50u8, 0x44u8, 0x46u8] }
/// Header size of a Windows shortcut (0x4C as a little-endian word).
pub open spec fn magic_lnk() -> Seq<u8> { seq![0x4cu8, 0u8, 0u8, 0u8] }
/// `PK\x03\x04`, a ZIP local header.
pub open spec fn magic_zip() -> Seq<u8> { seq![0x50u8, 0x4bu8, 3u8, 4u8] }
/// `#!`, a shebang.
pub open spec fn magic_shebang() -> Seq<u8> { seq![0x23u8, 0x21u8] }

/// The first 1024 bytes (all of them when there are fewer).
pub open spec fn head_1k(data: Seq<u8>) -> Seq<u8> {
    if data.len() <= 1024 { data } else { data.take(1024) }
}

/// The media type of the bytes, given what `infer` recognised in them and the
/// lower-cased file name: the recognised type, else DOS/PE, ELF, PDF and
/// shortcut magic, else plain text when the first kilobyte is well-formed
/// UTF-8, else a generic binary type.
pub open spec fn mime_from(recognised: Option<Seq<char>>, data: Seq<u8>, lower_name: Seq<char>) -> Seq<char> {
    match recognised {
        Some(m) => m,
        None => if seq_starts_with(data, magic_mz()) {
            "application/x-dosexec"@
        } else if seq_starts_with(data, magic_elf()) {
            "application/x-executable"@
        } else if seq_starts_with(data, magic_pdf()) {
            "application/pdf"@
        } else if seq_starts_with(data, magic_lnk()) && seq_ends_with(lower_name, ".lnk"@) {
            "application/x-ms-shortcut"@
        } else if vstd::utf8::valid_utf8(head_1k(data)) {
            "text/plain"@
        } else {
            "application/octet-stream"@
        },
    }
}

/// The media type of the bytes of a file with the given name.
pub open spec fn mime_of(data: Seq<u8>, file_name: Seq<char>) -> Seq<char> {
    mime_from(infer_mime_of(data), data, unicode_lower(file_name))
}

/// The text of an optional string.
pub open spec fn opt_text(o: Option<&str>) -> Option<Seq<char>> {
    match o {
        Some(m) => Some(m@),
        None => None,
    }
}

/// The media type of the bytes, given what `infer` recognised in them and
/// the lower-cased file name.
pub fn detect_from(recognised: Option<&str>, data: &[u8], lower_name: &str) -> (r: String)
    ensures
        r@ == mime_from(opt_text(recognised), data@, lower_name@),
{
    if let Some(m) = recognised {
        return m.to_owned();
    }
    let mz: [u8; 2] = [0x4d, 0x5a];
    let elf: [u8; 4] = [0x7f, 0x45, 0x4c, 0x46];
    let pdf: [u8; 4] = [0x25, 0x50, 0x44, 0x46];
    let lnk: [u8; 4] = [0x4c, 0, 0, 0];
    proof {
        assert(mz@ =~= magic_mz());
        assert(elf@ =~= magic_elf());
        assert(pdf@ =~= magic_pdf());
        assert(lnk@ =~= magic_lnk());
    }
    if starts_with_bytes(data, &mz) {
        return "application/x-dosexec".to_owned();
    }
    if starts_with_bytes(data, &elf) {
        return "application/x-executable".to_owned();
    }
    if starts_with_bytes(data, &pdf) {
        return "application/pdf".to_owned();
    }
    if starts_with_bytes(data, &lnk) {
        let lower = chars_of(lower_name);
        let suffix = chars_of(".lnk");
        if ends_with_chars(lower.as_slice(), suffix.as_slice()) {
            return "application/x-ms-shortcut".to_owned();
        }
    }
    let n = if data.len() <= 1024 { data.len() } else { 1024 };
    let head = vstd::slice::slice_subrange(data, 0, n);
    proof {
        if data@.len() <= 1024 {
            assert(head@ =~= data@);
        }
    }
    if is_valid_utf8(head) {
        return "text/plain".to_owned();
    }
    "application/octet-stream".to_owned()
}

/// The real media type of the bytes, from their magic numbers.
pub fn detect(data: &[u8], file_name: &str) -> (r: String)
    ensures
        r@ == mime_of(data@, file_name@),
{
    let recognised = infer_mime(data);
    let lower = to_lowercase(file_name);
    match &recognised {
        Some(m) => detect_from(Some(m.as_str()), data, lower.as_str()),
        None => detect_from(None, data, lower.as_str()),
    }
}

/// Extensions of script files.
pub open spec fn script_extensions() -> Seq<&'static str> {
    seq![
        "bat", "cmd", "ps1", "psm1", "vbs", "vbe", "js", "jse", "wsf", "wsh", "hta", "sh", "bash", "zsh",
        "py", "pyw", "pl", "php", "rb", "lua",
    ]
}

/// Extensions of Office documents.
pub open spec fn office_extensions() -> Seq<&'static str> {
    seq!["docx", "docm", "dotm", "xlsx", "xlsm", "xltm", "pptx", "pptm", "doc", "xls", "ppt"]
}

/// Extensions of archives.
pub open spec fn archive_extensions() -> Seq<&'static str> {
    seq!["zip", "jar", "apk", "rar", "7z", "tar", "gz", "iso"]
}

/// Media-type fragments of archives.
pub open spec fn archive_mime_markers() -> Seq<&'static str> {
    seq!["zip", "rar", "7z", "tar", "gzip", "bzip2", "xz"]
}

/// Media-type fragments of office documents.
pub open spec fn document_mime_markers() -> Seq<&'static str> {
    seq!["word", "excel", "office"]
}

/// Media types of executables.
pub open spec fn executable_mimes() -> Seq<&'static str> {
    seq![
        "application/x-dosexec", "application/x-executable", "application/x-mach-binary",
        "application/vnd.microsoft.portable-executable",
    ]
}

/// The first four bytes are a Mach-O magic (32 or 64 bit, either byte
/// order) or the magic of a universal binary.
pub open spec fn is_macho_magic(data: Seq<u8>) -> bool {
    data.len() >= 4 && {
        let m = data.take(4);
        ||| m == seq![0xfeu8, 0xedu8, 0xfau8, 0xceu8]
        ||| m == seq![0xfeu8, 0xedu8, 0xfau8, 0xcfu8]
        ||| m == seq![0xceu8, 0xfau8, 0xedu8, 0xfeu8]
        ||| m == seq![0xcfu8, 0xfau8, 0xedu8, 0xfeu8]
        ||| m == seq![0xcau8, 0xfeu8, 0xbau8, 0xbeu8]
    }
}

/// The lower-cased extension of a file name: the text after its last dot,
/// or the whole name when it has none.
pub open spec fn extension_of(file_name: Seq<char>) -> Seq<char> {
    unicode_lower(after_last(file_name, '.'))
}

/// The bytes betray an executable, given what `infer` recognised in them:
/// an executable media type, or DOS/PE or ELF magic.
pub open spec fn looks_binary_from(recognised: Option<Seq<char>>, data: Seq<u8>) -> bool {
    (recognised is Some && is_one_of(recognised->0, executable_mimes()))
        || seq_starts_with(data, magic_mz()) || seq_starts_with(data, magic_elf())
}

/// The category of a file from its media type, its bytes, its lower-cased
/// extension and what `infer` recognised in the bytes, magic bytes first; a
/// script or Office extension counts only when the bytes agree with it.
pub open spec fn category_from(
    mime: Seq<char>,
    data: Seq<u8>,
    ext: Seq<char>,
    recognised: Option<Seq<char>>,
) -> FileCategory {
    if seq_starts_with(data, magic_mz()) || mime == "application/x-dosexec"@
        || mime == "application/vnd.microsoft.portable-executable"@ {
        FileCategory::Pe
    } else if seq_starts_with(data, magic_elf()) {
        FileCategory::Elf
    } else if is_macho_magic(data) {
        FileCategory::MachO
    } else if seq_starts_with(data, magic_pdf()) || crate::text::seq_contains(mime, "pdf"@) {
        FileCategory::Pdf
    } else if seq_starts_with(data, magic_lnk()) && ext == "lnk"@ {
        FileCategory::Lnk
    } else if is_one_of(ext, office_extensions()) && seq_starts_with(data, magic_zip()) {
        FileCategory::OfficeDoc
    } else if is_one_of(ext, script_extensions()) && !looks_binary_from(recognised, data) {
        FileCategory::Script
    } else if seq_starts_with(data, magic_shebang()) {
        FileCategory::Script
    } else if contains_any(mime, archive_mime_markers()) || is_one_of(ext, archive_extensions()) {
        FileCategory::Archive
    } else if contains_any(mime, document_mime_markers()) {
        FileCategory::Document
    } else {
        FileCategory::Other
    }
}

/// The category of a file from its media type, magic bytes and file name.
pub open spec fn category_of(mime: Seq<char>, data: Seq<u8>, file_name: Seq<char>) -> FileCategory {
    category_from(mime, data, extension_of(file_name), infer_mime_of(data))
}

fn is_macho(data: &[u8]) -> (r: bool)
    ensures
        r == is_macho_magic(data@),
{
    if data.len() < 4 {
        return false;
    }
    let m0: [u8; 4] = [0xfe, 0xed, 0xfa, 0xce];
    let m1: [u8; 4] = [0xfe, 0xed, 0xfa, 0xcf];
    let m2: [u8; 4] = [0xce, 0xfa, 0xed, 0xfe];
    let m3: [u8; 4] = [0xcf, 0xfa, 0xed, 0xfe];
    let m4: [u8; 4] = [0xca, 0xfe, 0xba, 0xbe];
    let r = crate::text::bytes_match_at(data, &m0, 0) || crate::text::bytes_match_at(data, &m1, 0)
        || crate::text::bytes_match_at(data, &m2, 0) || crate::text::bytes_match_at(data, &m3, 0)
        || crate::text::bytes_match_at(data, &m4, 0);
    proof {
        assert(data@.take(4) =~= data@.subrange(0, 4));
        assert(m0@ =~= seq![0xfeu8, 0xedu8, 0xfau8, 0xceu8]);
        assert(m1@ =~= seq![0xfeu8, 0xedu8, 0xfau8, 0xcfu8]);
        assert(m2@ =~= seq![0xceu8, 0xfau8, 0xedu8, 0xfeu8]);
        assert(m3@ =~= seq![0xcfu8, 0xfau8, 0xedu8, 0xfeu8]);
        assert(m4@ =~= seq![0xcau8, 0xfeu8, 0xbau8, 0xbeu8]);
    }
    r
}

fn looks_binary_exec(recognised: Option<&str>, data: &[u8]) -> (r: bool)
    ensures
        r == looks_binary_from(opt_text(recognised), data@),
{
    let exe: [&str; 4] = [
        "application/x-dosexec", "application/x-executable", "application/x-mach-binary",
        "application/vnd.microsoft.portable-executable",
    ];
    let mz: [u8; 2] = [0x4d, 0x5a];
    let elf: [u8; 4] = [0x7f, 0x45, 0x4c, 0x46];
    proof {
        assert(exe@ =~= executable_mimes());
        assert(mz@ =~= magic_mz());
        assert(elf@ =~= magic_elf());
    }
    let by_kind = match recognised {
        Some(m) => any_equal(m, &exe),
        None => false,
    };
    by_kind || starts_with_bytes(data, &mz) || starts_with_bytes(data, &elf)
}

/// The category of a file from its media type, its bytes, its lower-cased
/// extension and what `infer` recognised in the bytes.
pub fn categorize_from(mime: &str, data: &[u8], ext: &str, recognised: Option<&str>) -> (c: FileCategory)
    ensures
        c == category_from(mime@, data@, ext@, opt_text(recognised)),
{
    let mz: [u8; 2] = [0x4d, 0x5a];
    let elf: [u8; 4] = [0x7f, 0x45, 0x4c, 0x46];
    let pdf: [u8; 4] = [0x25, 0x50, 0x44, 0x46];
    let lnk: [u8; 4] = [0x4c, 0, 0, 0];
    let zip: [u8; 4] = [0x50, 0x4b, 3, 4];
    let shebang: [u8; 2] = [0x23, 0x21];
    let office: [&str; 11] = ["docx", "docm", "dotm", "xlsx", "xlsm", "xltm", "pptx", "pptm", "doc", "xls", "ppt"];
    let scripts: [&str; 20] = [
        "bat", "cmd", "ps1", "psm1", "vbs", "vbe", "js", "jse", "wsf", "wsh", "hta", "sh", "bash", "zsh",
        "py", "pyw", "pl", "php", "rb", "lua",
    ];
    let archive_exts: [&str; 8] = ["zip", "jar", "apk", "rar", "7z", "tar", "gz", "iso"];
    let archive_mimes: [&str; 7] = ["zip", "rar", "7z", "tar", "gzip", "bzip2", "xz"];
    let doc_mimes: [&str; 3] = ["word", "excel", "office"];
    proof {
        assert(mz@ =~= magic_mz());
        assert(elf@ =~= magic_elf());
        assert(pdf@ =~= magic_pdf());
        assert(lnk@ =~= magic_lnk());
        assert(zip@ =~= magic_zip());
        assert(shebang@ =~= magic_shebang());
        assert(office@ =~= office_extensions());
        assert(scripts@ =~= script_extensions());
        assert(archive_exts@ =~= archive_extensions());
        assert(archive_mimes@ =~= archive_mime_markers());
        assert(doc_mimes@ =~= document_mime_markers());
    }

    if starts_with_bytes(data, &mz) || str_eq(mime, "application/x-dosexec")
        || str_eq(mime, "application/vnd.microsoft.portable-executable") {
        return FileCategory::Pe;
    }
    if starts_with_bytes(data, &elf) {
        return FileCategory::Elf;
    }
    if is_macho(data) {
        return FileCategory::MachO;
    }
    if starts_with_bytes(data, &pdf) || crate::text::str_contains(mime, "pdf") {
        return FileCategory::Pdf;
    }
    if starts_with_bytes(data, &lnk) && str_eq(ext, "lnk") {
        return FileCategory::Lnk;
    }
    if any_equal(ext, &office) && starts_with_bytes(data, &zip) {
        return FileCategory::OfficeDoc;
    }
    if any_equal(ext, &scripts) && !looks_binary_exec(recognised, data) {
        return FileCategory::Script;
    }
    if starts_with_bytes(data, &shebang) {
        return FileCategory::Script;
    }
    if any_contained(mime, &archive_mimes) || any_equal(ext, &archive_exts) {
        return FileCategory::Archive;
    }
    if any_contained(mime, &doc_mimes) {
        return FileCategory::Document;
    }
    FileCategory::Other
}

/// The category of a file from its media type, magic bytes and extension.
pub fn categorize(mime: &str, data: &[u8], file_name: &str) -> (c: FileCategory)
    ensures
        c == category_of(mime@, data@, file_name@),
{
    let name = chars_of(file_name);
    let ext_raw = after_last_char(name.as_slice(), '.');
    let ext_raw_s = string_of(ext_raw.as_slice());
    let ext = to_lowercase(ext_raw_s.as_str());
    let recognised = infer_mime(data);
    match &recognised {
        Some(m) => categorize_from(mime, data, ext.as_str(), Some(m.as_str())),
        None => categorize_from(mime, data, ext.as_str(), None),
    }
}

/// Whatever the media type and the name, bytes that begin with `MZ` make a
/// Windows executable, and bytes that begin with the ELF magic (and not `MZ`)
/// a Linux one.
pub proof fn magic_bytes_take_precedence(mime: Seq<char>, data: Seq<u8>, file_name: Seq<char>)
    ensures
        seq_starts_with(data, magic_mz()) ==> category_of(mime, data, file_name) == FileCategory::Pe,
        seq_starts_with(data, magic_elf()) && !seq_starts_with(data, magic_mz())
            && mime != "application/x-dosexec"@
            && mime != "application/vnd.microsoft.portable-executable"@
            ==> category_of(mime, data, file_name) == FileCategory::Elf,
{
}

/// The category does not depend on the letter case of the file name's
/// extension: two names whose extensions lower-case alike give the same
/// category for the same media type and bytes.
pub proof fn category_ignores_extension_case(mime: Seq<char>, data: Seq<u8>, n1: Seq<char>, n2: Seq<char>)
    requires
        unicode_lower(after_last(n1, '.')) == unicode_lower(after_last(n2, '.')),
    ensures
        category_of(mime, data, n1) == category_of(mime, data, n2),
{
}

} // verus!
