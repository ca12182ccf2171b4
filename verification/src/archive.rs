//! Inspection of ZIP-based archives (ZIP, JAR, APK, Office OOXML): members,
//! nested executables, misleading double extensions, encrypted members and
//! VBA macro projects.

use vstd::prelude::*;
use crate::text::{
    after_last, after_last_char, any_equal, ascii_lower_seq, before_last, before_last_char,
    bytes_to_ascii_lower, chars_of, contains_bytes, count_char, ends_with_chars, has_two, is_one_of,
    seq_contains, seq_ends_with, string_of, take_at_most, take_chars, to_lowercase, unicode_lower,
};
use crate::types::{iocs_view, strings_view, ArchiveEntry, ArchiveInfo, IoC, Severity};

verus! {

/// The metadata of one archive member.
pub struct ZipEntryMeta {
    pub name: String,
    pub size: u64,
    pub compressed_size: u64,
    pub is_dir: bool,
    pub encrypted: bool,
}

/// A member that could be opened, with the content of its macro project
/// when it is one small enough to scan.
pub struct EntryRecord {
    pub meta: ZipEntryMeta,
    pub content: Option<Vec<u8>>,
}

/// Extensions of executable or script members.
pub open spec fn executable_extensions() -> Seq<&'static str> {
    seq![
        "exe", "dll", "scr", "com", "pif", "cpl", "msi", "bat", "cmd", "ps1", "vbs", "js", "jse", "wsf", "hta",
        "jar", "elf", "sh", "bin", "lnk",
    ]
}

/// Extensions of documents and media that a double extension fakes.
pub open spec fn document_extensions() -> Seq<&'static str> {
    seq!["pdf", "doc", "docx", "xls", "xlsx", "jpg", "jpeg", "png", "txt", "mp4", "mp3"]
}

/// Macro keywords: auto-run entry points and dangerous actions.
pub open spec fn vba_keywords() -> Seq<&'static str> {
    seq![
        "AutoOpen", "Auto_Open", "AutoExec", "AutoClose", "Document_Open", "Workbook_Open",
        "Workbook_Activate", "Document_Close", "Shell", "CreateObject", "WScript.Shell", "Wscript.shell",
        "URLDownloadToFile", "XMLHTTP", "ADODB.Stream", "powershell", "cmd /c", "cmd.exe", "Environ",
        "CallByName", "ExecuteExcel4Macro",
    ]
}

/// Keywords that make a macro project critical.
pub open spec fn critical_vba_keywords() -> Seq<&'static str> {
    seq!["Shell", "WScript.Shell", "powershell", "cmd /c", "cmd.exe", "URLDownloadToFile"]
}

/// At most this many members are listed.
pub open spec fn max_entries_listed() -> nat { 100 }

/// Macro projects larger than this are not scanned.
pub open spec fn max_vba_scan_bytes() -> nat { 5242880 }

/// Total uncompressed size above which an archive is refused as a bomb.
pub open spec fn max_total_uncompressed() -> nat { 209715200 }

/// Lower-cased member name.
pub open spec fn lower_name(rec: EntryRecord) -> Seq<char> {
    unicode_lower(rec.meta.name@)
}

/// The member is an executable (by extension) and not a directory.
pub open spec fn is_executable(rec: EntryRecord) -> bool {
    is_one_of(after_last(lower_name(rec), '.'), executable_extensions()) && !rec.meta.is_dir
}

/// The file name of the member has a document extension followed by an
/// executable one, as in `invoice.pdf.exe`.
pub open spec fn has_double_ext(rec: EntryRecord) -> bool {
    let base = after_last(lower_name(rec), '/');
    count_char(base, '.') >= 2
        && is_one_of(after_last(before_last(base, '.'), '.'), document_extensions())
        && is_one_of(after_last(base, '.'), executable_extensions())
}

/// The member is a VBA macro project.
pub open spec fn is_vba(rec: EntryRecord) -> bool {
    seq_ends_with(lower_name(rec), "vbaproject.bin"@)
}

/// The keywords, among the first `n`, that occur in the bytes, ignoring
/// ASCII case.
pub open spec fn keywords_upto(buf: Seq<u8>, n: nat) -> Seq<Seq<char>>
    decreases n,
{
    if n == 0 {
        seq![]
    } else {
        let prev = keywords_upto(buf, (n - 1) as nat);
        let kw = vba_keywords()[n - 1];
        if seq_contains(ascii_lower_seq(buf), ascii_lower_seq(vstd::utf8::encode_utf8(kw@))) {
            prev.push(kw@)
        } else {
            prev
        }
    }
}

/// The keywords found in a member.
pub open spec fn member_keywords(rec: EntryRecord) -> Seq<Seq<char>> {
    if is_vba(rec) && rec.meta.size <= max_vba_scan_bytes() {
        match rec.content {
            Some(buf) => keywords_upto(buf@, vba_keywords().len()),
            None => seq![],
        }
    } else {
        seq![]
    }
}

/// The keywords found in all members, member by member.
pub open spec fn all_keywords(recs: Seq<EntryRecord>) -> Seq<Seq<char>>
    decreases recs.len(),
{
    if recs.len() == 0 { seq![] } else { all_keywords(recs.drop_last()) + member_keywords(recs.last()) }
}

/// How a member is listed.
pub open spec fn listed(rec: EntryRecord) -> (Seq<char>, u64, u64, bool, bool) {
    if is_vba(rec) {
        (rec.meta.name@, rec.meta.size, rec.meta.compressed_size, false, false)
    } else {
        (rec.meta.name@, rec.meta.size, rec.meta.compressed_size, is_executable(rec), rec.meta.encrypted)
    }
}

/// A listed member as a value.
pub open spec fn entry_view(e: ArchiveEntry) -> (Seq<char>, u64, u64, bool, bool) {
    (e.name@, e.size, e.compressed_size, e.is_executable, e.is_encrypted)
}

/// The indicators of double extensions, member by member.
pub open spec fn double_ext_iocs(recs: Seq<EntryRecord>) -> Seq<(Seq<char>, Seq<char>, Severity, Seq<char>)>
    decreases recs.len(),
{
    if recs.len() == 0 {
        seq![]
    } else {
        let prev = double_ext_iocs(recs.drop_last());
        let r = recs.last();
        if has_double_ext(r) {
            prev.push(("Archive"@, take_at_most(r.meta.name@, 80), Severity::Critical,
                "Double extension trompeuse dans l'archive"@))
        } else {
            prev
        }
    }
}

/// The keywords joined by ", ".
pub open spec fn join_comma(ks: Seq<Seq<char>>) -> Seq<char>
    decreases ks.len(),
{
    if ks.len() == 0 {
        seq![]
    } else if ks.len() == 1 {
        ks[0]
    } else {
        join_comma(ks.drop_last()) + ", "@ + ks.last()
    }
}

/// Some element of `ks` belongs to `list`.
pub open spec fn any_of(ks: Seq<Seq<char>>, list: Seq<&str>) -> bool {
    exists|i: int| 0 <= i < ks.len() && is_one_of(#[trigger] ks[i], list)
}

/// The indicators of an archive: double extensions, then nested
/// executables, encrypted members and macros.
pub open spec fn archive_iocs(recs: Seq<EntryRecord>) -> Seq<(Seq<char>, Seq<char>, Severity, Seq<char>)> {
    let a = double_ext_iocs(recs);
    let nested = exists|i: int| 0 <= i < recs.len() && is_executable(#[trigger] recs[i]);
    let enc = exists|i: int| 0 <= i < recs.len() && (#[trigger] recs[i]).meta.encrypted;
    let vba = exists|i: int| 0 <= i < recs.len() && is_vba(#[trigger] recs[i]);
    let kws = all_keywords(recs);
    let b = if nested {
        a.push(("Archive"@, "Exécutable imbriqué"@, Severity::High,
            "L'archive contient un ou plusieurs fichiers exécutables"@))
    } else {
        a
    };
    let c = if enc {
        b.push(("Archive"@, "Entrées chiffrées"@, Severity::Medium,
            "Archive protégée par mot de passe — technique d'évasion antivirus courante"@))
    } else {
        b
    };
    if vba {
        c.push(("Macro VBA"@,
            if kws.len() == 0 { "vbaProject.bin"@ } else { take_at_most(join_comma(kws), 100) },
            if any_of(kws, critical_vba_keywords()) { Severity::Critical } else { Severity::High },
            "Document Office avec macros VBA détectées"@))
    } else {
        c
    }
}

/// The summary of the members that could be opened, for an archive of
/// `total` members.
pub open spec fn archive_summary_holds(info: ArchiveInfo, iocs: Seq<IoC>, archive_type: Seq<char>, total: usize, recs: Seq<EntryRecord>) -> bool {
    &&& info.archive_type@ == archive_type
    &&& info.total_entries == total
    &&& info.entries@.map_values(|e: ArchiveEntry| entry_view(e))
        == take_at_most(recs.map_values(|r: EntryRecord| listed(r)), max_entries_listed())
    &&& info.has_nested_executable == exists|i: int| 0 <= i < recs.len() && is_executable(#[trigger] recs[i])
    &&& info.has_double_extension == exists|i: int| 0 <= i < recs.len() && has_double_ext(#[trigger] recs[i])
    &&& info.has_encrypted_entries == exists|i: int| 0 <= i < recs.len() && (#[trigger] recs[i]).meta.encrypted
    &&& info.has_vba_macros == exists|i: int| 0 <= i < recs.len() && is_vba(#[trigger] recs[i])
    &&& strings_view(info.vba_keywords@) == all_keywords(recs)
    &&& iocs_view(iocs) == archive_iocs(recs)
}

fn executable_extensions_exec() -> (r: [&'static str; 20])
    ensures
        r@ == executable_extensions(),
{
    let r: [&'static str; 20] = [
        "exe", "dll", "scr", "com", "pif", "cpl", "msi", "bat", "cmd", "ps1", "vbs", "js", "jse", "wsf", "hta",
        "jar", "elf", "sh", "bin", "lnk",
    ];
    proof {
        assert(r@ =~= executable_extensions());
    }
    r
}

fn member_flags(rec: &EntryRecord) -> (r: (bool, bool, bool))
    ensures
        r.0 == is_executable(*rec),
        r.1 == has_double_ext(*rec),
        r.2 == is_vba(*rec),
{
    let lower = chars_of(to_lowercase(rec.meta.name.as_str()).as_str());
    let exe = executable_extensions_exec();
    let ext = string_of(after_last_char(lower.as_slice(), '.').as_slice());
    let executable = any_equal(ext.as_str(), &exe) && !rec.meta.is_dir;

    let docs: [&str; 11] = ["pdf", "doc", "docx", "xls", "xlsx", "jpg", "jpeg", "png", "txt", "mp4", "mp3"];
    proof {
        assert(docs@ =~= document_extensions());
    }
    let base = after_last_char(lower.as_slice(), '/');
    let double = if has_two(base.as_slice(), '.') {
        let middle = string_of(after_last_char(before_last_char(base.as_slice(), '.').as_slice(), '.').as_slice());
        let last = string_of(after_last_char(base.as_slice(), '.').as_slice());
        any_equal(middle.as_str(), &docs) && any_equal(last.as_str(), &exe)
    } else {
        false
    };

    let marker = chars_of("vbaproject.bin");
    let vba = ends_with_chars(lower.as_slice(), marker.as_slice());
    (executable, double, vba)
}

fn keywords_in(buf: &[u8]) -> (r: Vec<String>)
    ensures
        strings_view(r@) == keywords_upto(buf@, 21),
{
    let kws: [&str; 21] = [
        "AutoOpen", "Auto_Open", "AutoExec", "AutoClose", "Document_Open", "Workbook_Open",
        "Workbook_Activate", "Document_Close", "Shell", "CreateObject", "WScript.Shell", "Wscript.shell",
        "URLDownloadToFile", "XMLHTTP", "ADODB.Stream", "powershell", "cmd /c", "cmd.exe", "Environ",
        "CallByName", "ExecuteExcel4Macro",
    ];
    proof {
        assert(kws@ =~= vba_keywords());
    }
    let lower_buf = bytes_to_ascii_lower(buf);
    let mut out: Vec<String> = Vec::new();
    let mut i: usize = 0;
    while i < 21
        invariant
            kws@ == vba_keywords(),
            lower_buf@ == ascii_lower_seq(buf@),
            i <= 21,
            strings_view(out@) == keywords_upto(buf@, i as nat),
        decreases 21 - i,
    {
        let kw = kws[i];
        let lower_kw = bytes_to_ascii_lower(kw.as_bytes());
        if contains_bytes(lower_buf.as_slice(), lower_kw.as_slice()) {
            let ghost old = strings_view(out@);
            out.push(kw.to_owned());
            proof {
                assert(strings_view(out@) =~= old.push(kw@));
            }
        }
        i += 1;
    }
    out
}

fn join_comma_exec(ks: &Vec<String>) -> (r: Vec<char>)
    ensures
        r@ == join_comma(strings_view(ks@)),
{
    let mut out: Vec<char> = Vec::new();
    let mut i: usize = 0;
    while i < ks.len()
        invariant
            i <= ks@.len(),
            out@ == join_comma(strings_view(ks@).take(i as int)),
        decreases ks@.len() - i,
    {
        proof {
            assert(strings_view(ks@).take(i + 1).drop_last() =~= strings_view(ks@).take(i as int));
        }
        if i > 0 {
            let mut sep = chars_of(", ");
            out.append(&mut sep);
        }
        let mut k = chars_of(ks[i].as_str());
        out.append(&mut k);
        proof {
            if i == 0 {
                assert(out@ =~= join_comma(strings_view(ks@).take(i + 1)));
            } else {
                assert(out@ =~= join_comma(strings_view(ks@).take(i + 1)));
            }
        }
        i += 1;
    }
    proof {
        assert(strings_view(ks@).take(ks@.len() as int) =~= strings_view(ks@));
    }
    out
}

fn any_critical(ks: &Vec<String>) -> (r: bool)
    ensures
        r == any_of(strings_view(ks@), critical_vba_keywords()),
{
    let crit: [&str; 6] = ["Shell", "WScript.Shell", "powershell", "cmd /c", "cmd.exe", "URLDownloadToFile"];
    proof {
        assert(crit@ =~= critical_vba_keywords());
    }
    let mut i: usize = 0;
    while i < ks.len()
        invariant
            crit@ == critical_vba_keywords(),
            i <= ks@.len(),
            forall|k: int| 0 <= k < i ==> !is_one_of(#[trigger] strings_view(ks@)[k], critical_vba_keywords()),
        decreases ks@.len() - i,
    {
        if any_equal(ks[i].as_str(), &crit) {
            proof {
                assert(is_one_of(strings_view(ks@)[i as int], critical_vba_keywords()));
            }
            return true;
        }
        i += 1;
    }
    false
}

/// Summarises the members that could be opened, for an archive of `total`
/// members: the first hundred listed, the flags, the macro keywords and the
/// indicators.
pub fn summarize_archive(archive_type: &str, total: usize, recs: &Vec<EntryRecord>) -> (r: (ArchiveInfo, Vec<IoC>))
    ensures
        archive_summary_holds(r.0, r.1@, archive_type@, total, recs@),
{
    let ghost rs = recs@;
    let mut entries: Vec<ArchiveEntry> = Vec::new();
    let mut has_nested_executable = false;
    let mut has_double_extension = false;
    let mut has_encrypted_entries = false;
    let mut has_vba_macros = false;
    let mut vba_found: Vec<String> = Vec::new();
    let mut ioc_list: Vec<IoC> = Vec::new();
    let mut i: usize = 0;
    while i < recs.len()
        invariant
            rs == recs@,
            i <= rs.len(),
            entries@.map_values(|e: ArchiveEntry| entry_view(e))
                == take_at_most(rs.take(i as int).map_values(|r: EntryRecord| listed(r)), 100),
            has_nested_executable == exists|k: int| 0 <= k < i && is_executable(#[trigger] rs[k]),
            has_double_extension == exists|k: int| 0 <= k < i && has_double_ext(#[trigger] rs[k]),
            has_encrypted_entries == exists|k: int| 0 <= k < i && (#[trigger] rs[k]).meta.encrypted,
            has_vba_macros == exists|k: int| 0 <= k < i && is_vba(#[trigger] rs[k]),
            strings_view(vba_found@) == all_keywords(rs.take(i as int)),
            iocs_view(ioc_list@) == double_ext_iocs(rs.take(i as int)),
        decreases rs.len() - i,
    {
        let rec = &recs[i];
        let (executable, double, vba) = member_flags(rec);
        proof {
            assert(rs.take(i + 1).drop_last() =~= rs.take(i as int));
            assert(rs.take(i + 1).last() == rs[i as int]);
        }
        if executable {
            has_nested_executable = true;
        }
        if rec.meta.encrypted {
            has_encrypted_entries = true;
        }
        if double {
            has_double_extension = true;
            let value = take_chars(rec.meta.name.as_str(), 80);
            let ghost old = iocs_view(ioc_list@);
            ioc_list.push(IoC::new("Archive", value.as_str(), Severity::Critical,
                "Double extension trompeuse dans l'archive"));
            proof {
                assert(iocs_view(ioc_list@) =~= old.push(("Archive"@, take_at_most(rs[i as int].meta.name@, 80),
                    Severity::Critical, "Double extension trompeuse dans l'archive"@)));
            }
        }
        let ghost old_kw = strings_view(vba_found@);
        if vba {
            has_vba_macros = true;
            if rec.meta.size <= 5242880 {
                match &rec.content {
                    Some(buf) => {
                        let mut found = keywords_in(buf.as_slice());
                        vba_found.append(&mut found);
                    },
                    None => {},
                }
            }
        }
        proof {
            assert(strings_view(vba_found@) =~= old_kw + member_keywords(rs[i as int]));
        }
        let ghost old_entries = entries@.map_values(|e: ArchiveEntry| entry_view(e));
        if entries.len() < 100 {
            let entry = if vba {
                ArchiveEntry {
                    name: clone_string(&rec.meta.name),
                    size: rec.meta.size,
                    compressed_size: rec.meta.compressed_size,
                    is_executable: false,
                    is_encrypted: false,
                }
            } else {
                ArchiveEntry {
                    name: clone_string(&rec.meta.name),
                    size: rec.meta.size,
                    compressed_size: rec.meta.compressed_size,
                    is_executable: executable,
                    is_encrypted: rec.meta.encrypted,
                }
            };
            entries.push(entry);
            proof {
                assert(entries@.map_values(|e: ArchiveEntry| entry_view(e)) =~= old_entries.push(listed(rs[i as int])));
            }
        }
        proof {
            let lp = rs.take(i as int).map_values(|r: EntryRecord| listed(r));
            let ln = rs.take(i + 1).map_values(|r: EntryRecord| listed(r));
            assert(ln =~= lp.push(listed(rs[i as int])));
            if lp.len() >= 100 {
                assert(take_at_most(ln, 100) =~= take_at_most(lp, 100));
            } else {
                assert(take_at_most(lp, 100) =~= lp);
            }
        }
        i += 1;
    }
    proof {
        assert(rs.take(rs.len() as int) =~= rs);
    }
    if has_nested_executable {
        ioc_list.push(IoC::new("Archive", "Exécutable imbriqué", Severity::High,
            "L'archive contient un ou plusieurs fichiers exécutables"));
    }
    if has_encrypted_entries {
        ioc_list.push(IoC::new("Archive", "Entrées chiffrées", Severity::Medium,
            "Archive protégée par mot de passe — technique d'évasion antivirus courante"));
    }
    let ghost before_vba = iocs_view(ioc_list@);
    if has_vba_macros {
        let sev = if any_critical(&vba_found) { Severity::Critical } else { Severity::High };
        let value = if vba_found.len() == 0 {
            "vbaProject.bin".to_owned()
        } else {
            let joined = string_of(join_comma_exec(&vba_found).as_slice());
            take_chars(joined.as_str(), 100)
        };
        ioc_list.push(IoC::new("Macro VBA", value.as_str(), sev, "Document Office avec macros VBA détectées"));
    }
    let info = ArchiveInfo {
        archive_type: archive_type.to_owned(),
        total_entries: total,
        entries,
        has_nested_executable,
        has_double_extension,
        has_encrypted_entries,
        has_vba_macros,
        vba_keywords: vba_found,
    };
    proof {
        assert(iocs_view(ioc_list@) =~= archive_iocs(rs));
    }
    (info, ioc_list)
}

fn clone_string(s: &String) -> (r: String)
    ensures
        r@ == s@,
{
    s.clone()
}

/// `zip::ZipArchive`, opaque to the proofs.
#[verifier::external_type_specification]
#[verifier::external_body]
#[verifier::reject_recursive_types(R)]
pub struct ExZipArchive<R>(zip::ZipArchive<R>);

/// `std::io::Cursor`, opaque to the proofs.
#[verifier::external_type_specification]
#[verifier::external_body]
#[verifier::reject_recursive_types(T)]
pub struct ExCursor<T>(std::io::Cursor<T>);

/// A member's metadata as a value: name, size, compressed size, directory
/// flag, encryption flag.
pub open spec fn meta_view(m: ZipEntryMeta) -> (Seq<char>, u64, u64, bool, bool) {
    (m.name@, m.size, m.compressed_size, m.is_dir, m.encrypted)
}

/// An optional member's metadata as a value.
pub open spec fn opt_meta_view(m: Option<ZipEntryMeta>) -> Option<(Seq<char>, u64, u64, bool, bool)> {
    match m {
        Some(x) => Some(meta_view(x)),
        None => None,
    }
}

/// A member record as a value: metadata and content.
pub open spec fn record_view(r: EntryRecord) -> ((Seq<char>, u64, u64, bool, bool), Option<Seq<u8>>) {
    (meta_view(r.meta), match r.content {
        Some(c) => Some(c@),
        None => None,
    })
}

/// What `zip` reads of the bytes: `None` when `ZipArchive::new` fails;
/// otherwise, for each member index of the central directory, the metadata
/// that `ZipArchive::by_index` gives, `None` when it or the member's name
/// cannot be read.
pub uninterp spec fn zip_listing_of(data: Seq<u8>) -> Option<Seq<Option<(Seq<char>, u64, u64, bool, bool)>>>;

/// The content of member `index` of the archive in the bytes, as
/// `ZipArchive::by_index` and `Read::read_to_end` give it; `None` when
/// either fails.
pub uninterp spec fn zip_content_of(data: Seq<u8>, index: nat) -> Option<Seq<u8>>;

/// The bytes that an open archive reads from.
pub uninterp spec fn zip_source(z: zip::ZipArchive<std::io::Cursor<&[u8]>>) -> Seq<u8>;

/// Calls `zip::ZipArchive::new` on the bytes, read through a cursor; `None`
/// when the crate does not read them as an archive.
#[verifier::external_body]
fn zip_open(data: &[u8]) -> (r: Option<zip::ZipArchive<std::io::Cursor<&[u8]>>>)
    ensures
        r is Some <==> zip_listing_of(data@) is Some,
        r matches Some(z) ==> zip_source(z) == data@,
{
    zip::ZipArchive::new(std::io::Cursor::new(data)).ok()
}

/// Calls `ZipArchive::len`: the number of members of the central directory.
#[verifier::external_body]
fn zip_len(zip: &zip::ZipArchive<std::io::Cursor<&[u8]>>) -> (r: usize)
    requires
        zip_listing_of(zip_source(*zip)) is Some,
    ensures
        r == zip_listing_of(zip_source(*zip))->0.len(),
{
    zip.len()
}

/// Calls `ZipArchive::by_index` and reads the name, sizes, directory flag
/// and encryption flag of the member; `None` when the member or its name
/// cannot be read. The archive still reads the same bytes.
#[verifier::external_body]
fn zip_entry_meta(zip: &mut zip::ZipArchive<std::io::Cursor<&[u8]>>, index: usize) -> (r: Option<ZipEntryMeta>)
    requires
        zip_listing_of(zip_source(*old(zip))) is Some,
        index < zip_listing_of(zip_source(*old(zip)))->0.len(),
    ensures
        zip_source(*final(zip)) == zip_source(*old(zip)),
        opt_meta_view(r) == zip_listing_of(zip_source(*old(zip)))->0[index as int],
{
    let entry = zip.by_index(index).ok()?;
    let name = entry.name().ok()?.to_string();
    Some(ZipEntryMeta {
        name,
        size: entry.size(),
        compressed_size: entry.compressed_size(),
        is_dir: entry.is_dir(),
        encrypted: entry.encrypted(),
    })
}

/// Calls `ZipArchive::by_index` and `Read::read_to_end` on the member: its
/// uncompressed content, `None` when either fails. The archive still reads
/// the same bytes.
#[verifier::external_body]
fn zip_entry_content(zip: &mut zip::ZipArchive<std::io::Cursor<&[u8]>>, index: usize) -> (r: Option<Vec<u8>>)
    ensures
        zip_source(*final(zip)) == zip_source(*old(zip)),
        match r {
            Some(c) => zip_content_of(zip_source(*old(zip)), index as nat) == Some(c@),
            None => zip_content_of(zip_source(*old(zip)), index as nat) is None,
        },
{
    let mut entry = zip.by_index(index).ok()?;
    let mut buf = Vec::new();
    std::io::Read::read_to_end(&mut entry, &mut buf).ok()?;
    Some(buf)
}

/// Running total of uncompressed sizes, stuck at `u64::MAX` on overflow.
pub open spec fn add_sizes(total: u64, size: u64) -> u64 {
    if total + size > u64::MAX { u64::MAX } else { (total + size) as u64 }
}

/// The running total of the sizes of the readable members.
pub open spec fn listing_total(list: Seq<Option<(Seq<char>, u64, u64, bool, bool)>>) -> u64
    decreases list.len(),
{
    if list.len() == 0 {
        0
    } else {
        let t = listing_total(list.drop_last());
        match list.last() {
            Some(m) => add_sizes(t, m.1),
            None => t,
        }
    }
}

/// The running total never goes down.
proof fn listing_total_grows(list: Seq<Option<(Seq<char>, u64, u64, bool, bool)>>, i: int)
    requires
        0 <= i <= list.len(),
    ensures
        listing_total(list.take(i)) <= listing_total(list),
    decreases list.len() - i,
{
    if i < list.len() {
        listing_total_grows(list, i + 1);
        assert(list.take(i + 1).drop_last() =~= list.take(i));
    } else {
        assert(list.take(i) =~= list);
    }
}

/// The content of a member is read when it is a macro project small
/// enough to scan.
pub open spec fn wants_content(m: (Seq<char>, u64, u64, bool, bool)) -> bool {
    seq_ends_with(unicode_lower(m.0), "vbaproject.bin"@) && m.1 <= max_vba_scan_bytes()
}

/// The records of the readable members, in order, each with its content
/// when it is read.
pub open spec fn expected_records(data: Seq<u8>, list: Seq<Option<(Seq<char>, u64, u64, bool, bool)>>)
    -> Seq<((Seq<char>, u64, u64, bool, bool), Option<Seq<u8>>)>
    decreases list.len(),
{
    if list.len() == 0 {
        seq![]
    } else {
        let prev = expected_records(data, list.drop_last());
        match list.last() {
            Some(m) => prev.push((m, if wants_content(m) { zip_content_of(data, (list.len() - 1) as nat) } else { None })),
            None => prev,
        }
    }
}

/// `zip` reads the bytes as an archive whose member sizes stay within the
/// bomb limit.
pub open spec fn zip_readable(data: Seq<u8>) -> bool {
    zip_listing_of(data) matches Some(list) && listing_total(list) <= max_total_uncompressed()
}

/// The summary and indicators are those of the readable members of the
/// archive in the bytes, for the whole count of its central directory.
pub open spec fn zip_summary_holds(info: ArchiveInfo, iocs: Seq<IoC>, data: Seq<u8>, archive_type: Seq<char>) -> bool {
    let list = zip_listing_of(data)->0;
    exists|recs: Seq<EntryRecord>|
        #![trigger archive_summary_holds(info, iocs, archive_type, list.len() as usize, recs)]
        recs.map_values(|x: EntryRecord| record_view(x)) == expected_records(data, list)
        && archive_summary_holds(info, iocs, archive_type, list.len() as usize, recs)
}

/// The result of inspecting the bytes as an archive: `None` when `zip`
/// cannot read them or when the sizes of the members add up past the bomb
/// limit; otherwise the summary of the readable members.
pub open spec fn zip_result_holds(r: Option<(ArchiveInfo, Vec<IoC>)>, data: Seq<u8>, archive_type: Seq<char>) -> bool {
    if zip_readable(data) {
        r matches Some(res) && zip_summary_holds(res.0, res.1@, data, archive_type)
    } else {
        r is None
    }
}

/// Inspects a ZIP-based archive: `None` when it cannot be read as one, or
/// when the uncompressed sizes of its members add up past 200 MiB (a
/// decompression bomb); otherwise the summary of the members that could be
/// read, with the content of each small enough macro project.
pub fn analyze_zip(data: &[u8], archive_type: &str) -> (r: Option<(ArchiveInfo, Vec<IoC>)>)
    ensures
        zip_result_holds(r, data@, archive_type@),
{
    let mut zip = match zip_open(data) {
        Some(z) => z,
        None => { return None; },
    };
    let ghost list = zip_listing_of(data@)->0;
    let total = zip_len(&zip);
    let mut recs: Vec<EntryRecord> = Vec::new();
    let mut total_uncompressed: u64 = 0;
    let mut i: usize = 0;
    while i < total
        invariant
            zip_source(zip) == data@,
            zip_listing_of(data@) == Some(list),
            total == list.len(),
            i <= total,
            total_uncompressed == listing_total(list.take(i as int)),
            total_uncompressed <= max_total_uncompressed(),
            recs@.map_values(|x: EntryRecord| record_view(x)) == expected_records(data@, list.take(i as int)),
        decreases total - i,
    {
        proof {
            assert(list.take(i + 1).drop_last() =~= list.take(i as int));
            assert(list.take(i + 1).last() == list[i as int]);
        }
        let ghost before = recs@.map_values(|x: EntryRecord| record_view(x));
        match zip_entry_meta(&mut zip, i) {
            None => {},
            Some(meta) => {
                total_uncompressed = match total_uncompressed.checked_add(meta.size) {
                    Some(t) => t,
                    None => u64::MAX,
                };
                if total_uncompressed > 209715200 {
                    proof {
                        listing_total_grows(list, i + 1);
                    }
                    return None;
                }
                let lower = chars_of(to_lowercase(meta.name.as_str()).as_str());
                let marker = chars_of("vbaproject.bin");
                proof {
                    reveal_strlit("vbaproject.bin");
                }
                let content = if ends_with_chars(lower.as_slice(), marker.as_slice()) && meta.size <= 5242880 {
                    zip_entry_content(&mut zip, i)
                } else {
                    None
                };
                let rec = EntryRecord { meta, content };
                recs.push(rec);
                proof {
                    assert(recs@.map_values(|x: EntryRecord| record_view(x)) =~= before.push(record_view(rec)));
                }
            },
        }
        i += 1;
    }
    proof {
        assert(list.take(total as int) =~= list);
    }
    let r = summarize_archive(archive_type, total, &recs);
    proof {
        let ghost rs = recs@;
        assert(rs.map_values(|x: EntryRecord| record_view(x)) == expected_records(data@, list)
            && archive_summary_holds(r.0, r.1@, archive_type@, list.len() as usize, rs));
    }
    Some(r)
}

/// The flags of a member do not depend on the letter case of its name: two
/// members whose names lower-case alike, both files or both directories,
/// are alike executable, alike double-extension fakes and alike macro
/// projects (so `SETUP.EXE` counts as `setup.exe` does).
pub proof fn member_flags_ignore_case(r1: EntryRecord, r2: EntryRecord)
    requires
        unicode_lower(r1.meta.name@) == unicode_lower(r2.meta.name@),
        r1.meta.is_dir == r2.meta.is_dir,
    ensures
        is_executable(r1) == is_executable(r2),
        has_double_ext(r1) == has_double_ext(r2),
        is_vba(r1) == is_vba(r2),
{
}

/// A member that is not a directory is executable exactly when the text
/// after the last dot of its lower-cased name is one of the executable
/// extensions; a directory never is.
pub proof fn executable_by_lower_cased_extension(rec: EntryRecord, ext: Seq<char>)
    requires
        after_last(unicode_lower(rec.meta.name@), '.') == ext,
    ensures
        is_executable(rec) <==> !rec.meta.is_dir && exists|i: int| 0 <= i < executable_extensions().len()
            && #[trigger] executable_extensions()[i]@ == ext,
{
}

} // verus!
