//! Signature database of known malware hashes, in the formats of ClamAV:
//! `.hdb` (MD5), `.hsb` (SHA-1 or SHA-256) and `.msb` (SHA-256), each line
//! `<hash>:<size>:<name>`, and `.cvd`/`.cld` archives (a 512-byte header,
//! then a gzip-compressed tar of such files).

use vstd::prelude::*;
use vstd::hash_map::StringHashMap;
use crate::text::{
    after_last, after_last_char, before_last, before_last_char, count_char, str_eq,
    chars_of, split_all, utf8_len_is, split_bytes, split_chars, split_state, string_of, to_lowercase, trim, trim_chars,
    unicode_lower, utf8_decode, is_ascii_text, ascii_lower_text, ascii_lower_char, no_ascii_upper,
};
use crate::types::ScanError;

verus! {

/// Which digest the lines of a signature file hold.
#[derive(Debug, Clone, Copy, PartialEq, Eq, Structural)]
pub enum HashType {
    /// MD5 digests (`.hdb`).
    Md5,
    /// SHA-256 digests (`.msb`).
    Sha256,
    /// SHA-1 or SHA-256 digests (`.hsb`).
    Sha1OrSha256,
}

/// Summary of the loaded database.
#[derive(Debug, Clone)]
pub struct ClamavStatus {
    pub loaded: bool,
    pub md5_count: usize,
    pub sha256_count: usize,
    pub db_path: String,
    pub last_updated: Option<String>,
}

/// A hit: the malware's name and the table that knows it.
#[derive(Debug)]
pub struct ClamavMatch {
    pub malware_name: String,
    pub database: String,
}

/// The database: malware names by lower-case hexadecimal digest.
pub struct ClamavDb {
    md5_map: StringHashMap<String>,
    sha256_map: StringHashMap<String>,
    db_path: String,
    last_updated: Option<String>,
}

/// Names by digest, as character sequences.
pub open spec fn names_view(m: Map<Seq<char>, String>) -> Map<Seq<char>, Seq<char>> {
    m.map_values(|s: String| s@)
}

/// Digest lengths, in bytes of text, that a line must have to be kept:
/// 32 (MD5), 64 (SHA-256), and 40 or 64 in `.hsb` files (SHA-1 or SHA-256).
pub open spec fn digest_len_ok(t: HashType, n: nat) -> bool {
    match t {
        HashType::Md5 => n == 32,
        HashType::Sha256 => n == 64,
        HashType::Sha1OrSha256 => n == 40 || n == 64,
    }
}

/// A digest field lower-cased as `str::to_lowercase` does: letter by
/// letter for ASCII text, by the Unicode mapping otherwise.
pub open spec fn lower_field(f: Seq<char>) -> Seq<char> {
    if is_ascii_text(f) { ascii_lower_text(f) } else { unicode_lower(f) }
}

/// The digest and name that a line (its bytes, without the newline) gives:
/// none when it is not UTF-8, empty or a comment after trimming, has fewer
/// than three `:`-separated fields, or a lower-cased first field of a
/// length its file type does not allow; otherwise the lower-cased first field and everything after
/// the second `:`.
pub open spec fn line_signature(line: Seq<u8>, t: HashType) -> Option<(Seq<char>, Seq<char>)> {
    if !vstd::utf8::valid_utf8(line) {
        None
    } else {
        let text = trim(vstd::utf8::decode_utf8(line));
        let parts = split_all(text, ':');
        if text.len() == 0 || text[0] == '#' || parts.len() < 3 {
            None
        } else {
            let hash = lower_field(parts[0]);
            if digest_len_ok(t, vstd::utf8::encode_utf8(hash).len()) {
                Some((hash, text.skip(parts[0].len() + parts[1].len() + 2int)))
            } else {
                None
            }
        }
    }
}

/// The names by digest after reading the lines in order, a later line
/// replacing an earlier one with the same digest.
pub open spec fn apply_lines(m: Map<Seq<char>, Seq<char>>, lines: Seq<Seq<u8>>, t: HashType) -> Map<Seq<char>, Seq<char>>
    decreases lines.len(),
{
    if lines.len() == 0 {
        m
    } else {
        let prev = apply_lines(m, lines.drop_last(), t);
        match line_signature(lines.last(), t) {
            Some(sig) => prev.insert(sig.0, sig.1),
            None => prev,
        }
    }
}

/// The names by digest after reading a signature file.
pub open spec fn apply_file(m: Map<Seq<char>, Seq<char>>, content: Seq<u8>, t: HashType) -> Map<Seq<char>, Seq<char>> {
    apply_lines(m, split_all(content, 10u8), t)
}

/// The digest and name of one line.
fn parse_line(line: &[u8], t: HashType) -> (r: Option<(String, String)>)
    ensures
        match r {
            Some(p) => line_signature(line@, t) == Some((p.0@, p.1@)),
            None => line_signature(line@, t) is None,
        },
{
    let decoded = match utf8_decode(line) {
        Some(s) => s,
        None => { return None; },
    };
    let text = trim_chars(chars_of(decoded.as_str()).as_slice());
    if text.len() == 0 || text[0] == '#' {
        return None;
    }
    let parts = split_chars(text.as_slice(), ':');
    let ghost pv = parts@.map_values(|l: Vec<char>| l@);
    if parts.len() < 3 {
        return None;
    }
    proof {
        assert(pv[0] == parts@[0]@);
        assert(pv[1] == parts@[1]@);
    }
    let hash = to_lowercase(string_of(parts[0].as_slice()).as_str());
    let hash_chars = chars_of(hash.as_str());
    let len_ok = match t {
        HashType::Md5 => utf8_len_is(hash_chars.as_slice(), 32),
        HashType::Sha256 => utf8_len_is(hash_chars.as_slice(), 64),
        HashType::Sha1OrSha256 => utf8_len_is(hash_chars.as_slice(), 40) || utf8_len_is(hash_chars.as_slice(), 64),
    };
    if !len_ok {
        return None;
    }
    proof {
        split_state_len(text@, ':');
        let st = split_state(text@, ':');
        assert(pv == split_all(text@, ':'));
        assert(pv == st.0.push(st.1));
        assert(parts@.len() >= 3);
        assert(pv.len() == parts@.len());
        assert(pv.len() == st.0.len() + 1);
        assert(st.0.len() >= 2);
        assert(pv[0] == st.0[0]);
        assert(pv[1] == st.0[1]);
    }
    let skip = parts[0].len() + parts[1].len() + 2;
    let mut name: Vec<char> = Vec::new();
    let mut k: usize = skip;
    while k < text.len()
        invariant
            skip <= k <= text@.len(),
            name@ == text@.subrange(skip as int, k as int),
        decreases text@.len() - k,
    {
        name.push(text[k]);
        k += 1;
        proof {
            assert(name@ =~= text@.subrange(skip as int, k as int));
        }
    }
    proof {
        assert(name@ =~= text@.skip(skip as int));
        assert(text@ == trim(vstd::utf8::decode_utf8(line@)));
    }
    Some((hash, string_of(name.as_slice())))
}

proof fn split_state_len<T>(s: Seq<T>, sep: T)
    ensures
        split_state(s, sep).1.len() <= s.len(),
        ({
            let st = split_state(s, sep);
            forall|k: int| 0 <= k < st.0.len() ==> #[trigger] st.0[k].len() + 1 <= s.len()
        }),
        ({
            let st = split_state(s, sep);
            st.0.len() >= 2 ==> st.0[0].len() + st.0[1].len() + 2 <= s.len()
        }),
        ({
            let st = split_state(s, sep);
            st.0.len() >= 1 ==> st.0[0].len() + 1 + st.1.len() <= s.len()
        }),
    decreases s.len(),
{
    if s.len() > 0 {
        split_state_len(s.drop_last(), sep);
    }
}

impl ClamavDb {
    /// The MD5 table: names by digest.
    pub closed spec fn md5_names(&self) -> Map<Seq<char>, Seq<char>> {
        names_view(self.md5_map@)
    }

    /// The SHA-256 table: names by digest.
    pub closed spec fn sha256_names(&self) -> Map<Seq<char>, Seq<char>> {
        names_view(self.sha256_map@)
    }

    /// The directory the database was read from.
    pub closed spec fn path(&self) -> Seq<char> {
        self.db_path@
    }

    /// When the database directory was last modified, if known.
    pub closed spec fn updated(&self) -> Option<Seq<char>> {
        match self.last_updated {
            Some(s) => Some(s@),
            None => None,
        }
    }

    /// An empty database for the directory `db_path`.
    pub fn new(db_path: &str) -> (db: Self)
        ensures
            db.md5_names() == Map::<Seq<char>, Seq<char>>::empty(),
            db.sha256_names() == Map::<Seq<char>, Seq<char>>::empty(),
            db.path() == db_path@,
            db.updated() is None,
    {
        let db = ClamavDb {
            md5_map: StringHashMap::new(),
            sha256_map: StringHashMap::new(),
            db_path: db_path.to_owned(),
            last_updated: None,
        };
        proof {
            assert(names_view(db.md5_map@) =~= Map::<Seq<char>, Seq<char>>::empty());
            assert(names_view(db.sha256_map@) =~= Map::<Seq<char>, Seq<char>>::empty());
        }
        db
    }

    /// Records when the database directory was last modified.
    pub fn set_last_updated(&mut self, when: Option<String>)
        ensures
            final(self).md5_names() == old(self).md5_names(),
            final(self).sha256_names() == old(self).sha256_names(),
            final(self).path() == old(self).path(),
            final(self).updated() == match when { Some(s) => Some(s@), None => None::<Seq<char>> },
    {
        self.last_updated = when;
    }

    /// The name of the malware with this MD5 digest, if known.
    pub fn check_md5(&self, hash: &str) -> (r: Option<ClamavMatch>)
        ensures
            r is Some <==> self.md5_names().contains_key(hash@),
            r matches Some(m) ==> m.malware_name@ == self.md5_names()[hash@] && m.database@ == "ClamAV/MD5"@,
    {
        match self.md5_map.get(hash) {
            Some(name) => Some(ClamavMatch { malware_name: name.clone(), database: "ClamAV/MD5".to_owned() }),
            None => None,
        }
    }

    /// The name of the malware with this SHA-256 digest, if known.
    pub fn check_sha256(&self, hash: &str) -> (r: Option<ClamavMatch>)
        ensures
            r is Some <==> self.sha256_names().contains_key(hash@),
            r matches Some(m) ==> m.malware_name@ == self.sha256_names()[hash@] && m.database@ == "ClamAV/SHA256"@,
    {
        match self.sha256_map.get(hash) {
            Some(name) => Some(ClamavMatch { malware_name: name.clone(), database: "ClamAV/SHA256".to_owned() }),
            None => None,
        }
    }

    /// Counts of the tables, directory and date; loaded when either table is
    /// non-empty.
    pub fn status(&self) -> (s: ClamavStatus)
        ensures
            s.md5_count == self.md5_names().len(),
            s.sha256_count == self.sha256_names().len(),
            s.loaded == (self.md5_names().len() > 0 || self.sha256_names().len() > 0),
            s.db_path@ == self.path(),
            match s.last_updated { Some(d) => self.updated() == Some(d@), None => self.updated() is None },
    {
        proof {
            assert(names_view(self.md5_map@).dom() =~= self.md5_map@.dom());
            assert(names_view(self.sha256_map@).dom() =~= self.sha256_map@.dom());
        }
        let md5_count = self.md5_map.len();
        let sha256_count = self.sha256_map.len();
        ClamavStatus {
            loaded: md5_count > 0 || sha256_count > 0,
            md5_count,
            sha256_count,
            db_path: self.db_path.clone(),
            last_updated: match &self.last_updated {
                Some(d) => Some(d.clone()),
                None => None,
            },
        }
    }

    /// Reads the lines of a signature file into the table of its digest, a
    /// later line replacing an earlier one with the same digest.
    pub fn parse_hash_lines(&mut self, content: &[u8], hash_type: HashType)
        ensures
            hash_type == HashType::Md5 ==> final(self).md5_names() == apply_file(old(self).md5_names(), content@, hash_type)
                && final(self).sha256_names() == old(self).sha256_names(),
            hash_type != HashType::Md5 ==> final(self).sha256_names() == apply_file(old(self).sha256_names(), content@, hash_type)
                && final(self).md5_names() == old(self).md5_names(),
            final(self).path() == old(self).path(),
            final(self).updated() == old(self).updated(),
    {
        let ranges = split_bytes(content, 10);
        let ghost lines = split_all(content@, 10u8);
        let ghost md5_start = names_view(self.md5_map@);
        let ghost sha_start = names_view(self.sha256_map@);
        let mut i: usize = 0;
        while i < ranges.len()
            invariant
                lines == split_all(content@, 10u8),
                ranges@.len() == lines.len(),
                forall|k: int| 0 <= k < ranges@.len() ==> (#[trigger] ranges@[k]).0 <= ranges@[k].1 <= content@.len()
                    && content@.subrange(ranges@[k].0 as int, ranges@[k].1 as int) == lines[k],
                i <= ranges@.len(),
                hash_type == HashType::Md5 ==> names_view(self.md5_map@) == apply_lines(md5_start, lines.take(i as int), hash_type)
                    && names_view(self.sha256_map@) == sha_start,
                hash_type != HashType::Md5 ==> names_view(self.sha256_map@) == apply_lines(sha_start, lines.take(i as int), hash_type)
                    && names_view(self.md5_map@) == md5_start,
                self.db_path@ == old(self).db_path@,
                self.last_updated == old(self).last_updated,
            decreases ranges@.len() - i,
        {
            let (a, b) = ranges[i];
            let line = vstd::slice::slice_subrange(content, a, b);
            proof {
                assert(lines.take(i + 1).drop_last() =~= lines.take(i as int));
                assert(lines.take(i + 1).last() == line@);
            }
            match parse_line(line, hash_type) {
                Some((hash, name)) => {
                    let ghost key = hash@;
                    let ghost val = name@;
                    match hash_type {
                        HashType::Md5 => {
                            let ghost before = self.md5_map@;
                            self.md5_map.insert(hash, name);
                            proof {
                                assert(names_view(self.md5_map@) =~= names_view(before).insert(key, val));
                            }
                        },
                        _ => {
                            let ghost before = self.sha256_map@;
                            self.sha256_map.insert(hash, name);
                            proof {
                                assert(names_view(self.sha256_map@) =~= names_view(before).insert(key, val));
                            }
                        },
                    }
                },
                None => {},
            }
            i += 1;
        }
        proof {
            assert(lines.take(ranges@.len() as int) =~= lines);
        }
    }
}

/// What `tar` reads from the gzip stream of a signature archive's body
/// (through `flate2`'s `GzDecoder`): the members, in order, as far as the
/// first error (each path as lossy text, with its content), and that
/// error's message if one stopped the reading.
pub uninterp spec fn cvd_members_of(body: Seq<u8>) -> (Seq<(Seq<char>, Seq<u8>)>, Option<Seq<char>>);

/// A tar member: its path and its content.
pub struct TarMember {
    pub path: String,
    pub content: Vec<u8>,
}

/// The members as values.
pub open spec fn members_view(v: Seq<TarMember>) -> Seq<(Seq<char>, Seq<u8>)> {
    v.map_values(|m: TarMember| (m.path@, m.content@))
}

/// An optional message as a value.
pub open spec fn opt_message(o: Option<String>) -> Option<Seq<char>> {
    match o {
        Some(m) => Some(m@),
        None => None,
    }
}

/// Calls `tar::Archive::new` over `flate2::read::GzDecoder::new` on the
/// bytes, then `Archive::entries`, and converts each entry as the stream
/// yields it, with `Entry::path` (as lossy text) and `Read::read_to_end`,
/// until the first error, whose message is kept.
#[verifier::external_body]
fn cvd_members(body: &[u8]) -> (r: (Vec<TarMember>, Option<String>))
    ensures
        members_view(r.0@) == cvd_members_of(body@).0,
        opt_message(r.1) == cvd_members_of(body@).1,
{
    let mut archive = tar::Archive::new(flate2::read::GzDecoder::new(body));
    let mut out = Vec::new();
    let err = archive.entries().and_then(|entries| entries.map(|entry| {
        let mut entry = entry?;
        let path = entry.path()?.to_string_lossy().to_string();
        let mut content = Vec::new();
        std::io::Read::read_to_end(&mut entry, &mut content)?;
        Ok(TarMember { path, content })
    }).try_for_each(|m| m.map(|m| out.push(m)))).err();
    (out, err.map(|e| e.to_string()))
}

/// The components of a path that name something: the pieces between `/`
/// that are neither empty nor `.`.
pub open spec fn path_components(path: Seq<char>) -> Seq<Seq<char>> {
    split_all(path, '/').filter(|c: Seq<char>| c.len() > 0 && c != seq!['.'])
}

/// The extension of a path, as `Path::extension` gives it: the text after
/// the last dot of the last component, unless that component is `..`, has
/// no dot, or has its only dot first.
pub open spec fn path_extension(path: Seq<char>) -> Option<Seq<char>> {
    let comps = path_components(path);
    if comps.len() == 0 || comps.last() == seq!['.', '.'] {
        None
    } else {
        let name = comps.last();
        if count_char(name, '.') == 0 || before_last(name, '.').len() == 0 {
            None
        } else {
            Some(after_last(name, '.'))
        }
    }
}

/// What a file of the database directory holds, by its extension.
#[derive(Debug, Clone, Copy, PartialEq, Eq, Structural)]
pub enum DbFileKind {
    /// `.hdb`: MD5 signatures.
    Md5,
    /// `.hsb`: SHA-1 or SHA-256 signatures.
    Sha1OrSha256,
    /// `.msb`: SHA-256 signatures.
    Sha256,
    /// `.cvd`, `.cld`: a signature archive.
    Archive,
    /// Anything else.
    Ignored,
}

/// What a file of the given extension holds.
pub open spec fn kind_of_extension(ext: Option<Seq<char>>) -> DbFileKind {
    match ext {
        Some(e) => if e == "hdb"@ {
            DbFileKind::Md5
        } else if e == "hsb"@ {
            DbFileKind::Sha1OrSha256
        } else if e == "msb"@ {
            DbFileKind::Sha256
        } else if e == "cvd"@ || e == "cld"@ {
            DbFileKind::Archive
        } else {
            DbFileKind::Ignored
        },
        None => DbFileKind::Ignored,
    }
}

/// The non-empty, non-`.` pieces among the first ones.
pub open spec fn named_pieces(pv: Seq<Seq<char>>) -> Seq<Seq<char>> {
    pv.filter(|c: Seq<char>| c.len() > 0 && c != seq!['.'])
}

fn path_extension_exec(path: &str) -> (r: Option<String>)
    ensures
        match r {
            Some(e) => path_extension(path@) == Some(e@),
            None => path_extension(path@) is None,
        },
{
    let pieces = split_chars(chars_of(path).as_slice(), '/');
    let ghost pv = pieces@.map_values(|l: Vec<char>| l@);
    let mut last: Option<usize> = None;
    let mut i: usize = 0;
    while i < pieces.len()
        invariant
            pv == pieces@.map_values(|l: Vec<char>| l@),
            i <= pieces@.len(),
            match last {
                Some(k) => k < i && named_pieces(pv.take(i as int)).len() > 0
                    && named_pieces(pv.take(i as int)).last() == pv[k as int],
                None => named_pieces(pv.take(i as int)).len() == 0,
            },
        decreases pieces@.len() - i,
    {
        proof {
            reveal_with_fuel(Seq::<_>::filter, 1);
            assert(pv.take(i + 1).drop_last() =~= pv.take(i as int));
        }
        let p = &pieces[i];
        let is_dot = p.len() == 1 && p[0] == '.';
        proof {
            if p@.len() == 1 {
                assert(is_dot == (p@ =~= seq!['.']));
            } else {
                assert(p@ != seq!['.']);
            }
            assert(pv[i as int] == p@);
        }
        if p.len() > 0 && !is_dot {
            last = Some(i);
        }
        i += 1;
    }
    proof {
        assert(pv.take(pieces@.len() as int) =~= pv);
    }
    match last {
        None => None,
        Some(k) => {
            let name = &pieces[k];
            let is_parent = name.len() == 2 && name[0] == '.' && name[1] == '.';
            proof {
                assert(pv[k as int] == name@);
                if name@.len() == 2 {
                    assert(is_parent == (name@ =~= seq!['.', '.']));
                } else {
                    assert(name@ != seq!['.', '.']);
                }
            }
            if is_parent {
                return None;
            }
            let before = before_last_char(name.as_slice(), '.');
            let has_dot = dot_count_positive(name.as_slice());
            if !has_dot || before.len() == 0 {
                return None;
            }
            Some(string_of(after_last_char(name.as_slice(), '.').as_slice()))
        },
    }
}

fn dot_count_positive(s: &[char]) -> (r: bool)
    ensures
        r == (count_char(s@, '.') > 0),
{
    let mut i: usize = 0;
    while i < s.len()
        invariant
            i <= s@.len(),
            count_char(s@.take(i as int), '.') == 0,
        decreases s@.len() - i,
    {
        proof {
            assert(s@.take(i + 1).drop_last() =~= s@.take(i as int));
        }
        if s[i] == '.' {
            proof {
                count_char_prefix(s@, (i + 1) as nat);
            }
            return true;
        }
        i += 1;
    }
    proof {
        assert(s@.take(s@.len() as int) =~= s@);
    }
    false
}

proof fn count_char_prefix(s: Seq<char>, n: nat)
    requires
        n <= s.len(),
    ensures
        count_char(s, '.') >= count_char(s.take(n as int), '.'),
    decreases s.len() - n,
{
    if n < s.len() {
        count_char_prefix(s, n + 1);
        assert(s.take(n + 1int).drop_last() =~= s.take(n as int));
    } else {
        assert(s.take(n as int) =~= s);
    }
}

/// What a database file holds, from its name.
pub fn db_file_kind(file_name: &str) -> (k: DbFileKind)
    ensures
        k == kind_of_extension(path_extension(file_name@)),
{
    match path_extension_exec(file_name) {
        None => DbFileKind::Ignored,
        Some(e) => {
            let e = e.as_str();
            if str_eq(e, "hdb") {
                DbFileKind::Md5
            } else if str_eq(e, "hsb") {
                DbFileKind::Sha1OrSha256
            } else if str_eq(e, "msb") {
                DbFileKind::Sha256
            } else if str_eq(e, "cvd") || str_eq(e, "cld") {
                DbFileKind::Archive
            } else {
                DbFileKind::Ignored
            }
        },
    }
}

/// The whole Unix seconds, rounded down, of an instant given as a duration
/// before or after the epoch.
pub open spec fn epoch_seconds_of(before_epoch: bool, secs: u64, subsec_nanos: u32) -> int {
    if !before_epoch {
        secs as int
    } else if subsec_nanos > 0 {
        -(secs as int) - 1
    } else {
        -(secs as int)
    }
}

/// The whole Unix seconds, rounded down, of the modification time of the
/// database directory; `None` when they do not fit an `i64`.
pub fn epoch_seconds(before_epoch: bool, secs: u64, subsec_nanos: u32) -> (r: Option<i64>)
    ensures
        match r {
            Some(v) => v == epoch_seconds_of(before_epoch, secs, subsec_nanos),
            None => secs > i64::MAX,
        },
{
    if secs > 9223372036854775807 {
        return None;
    }
    let whole = secs as i64;
    if !before_epoch {
        Some(whole)
    } else if subsec_nanos > 0 {
        Some(-whole - 1)
    } else {
        Some(-whole)
    }
}

/// Signature archives above 500 MiB are skipped.
pub open spec fn max_cvd_size() -> nat { 524288000 }

/// A signature archive of this size is read (not above 500 MiB).
pub fn cvd_size_acceptable(file_size: u64) -> (r: bool)
    ensures
        r == (file_size <= max_cvd_size()),
{
    file_size <= 524288000
}

/// The two tables after reading the signature files among the members, in
/// order (`.hdb` into the MD5 table, `.hsb` and `.msb` into the SHA-256
/// table; other members are skipped).
pub open spec fn apply_members(
    md5: Map<Seq<char>, Seq<char>>,
    sha: Map<Seq<char>, Seq<char>>,
    ms: Seq<(Seq<char>, Seq<u8>)>,
) -> (Map<Seq<char>, Seq<char>>, Map<Seq<char>, Seq<char>>)
    decreases ms.len(),
{
    if ms.len() == 0 {
        (md5, sha)
    } else {
        let prev = apply_members(md5, sha, ms.drop_last());
        let m = ms.last();
        match kind_of_extension(path_extension(m.0)) {
            DbFileKind::Md5 => (apply_file(prev.0, m.1, HashType::Md5), prev.1),
            DbFileKind::Sha256 => (prev.0, apply_file(prev.1, m.1, HashType::Sha256)),
            DbFileKind::Sha1OrSha256 => (prev.0, apply_file(prev.1, m.1, HashType::Sha1OrSha256)),
            _ => prev,
        }
    }
}

/// The archive has its header, and its gzip stream and tar are read to
/// the end without error.
pub open spec fn cvd_readable(bytes: Seq<u8>) -> bool {
    bytes.len() >= 512 && cvd_members_of(bytes.skip(512)).1 is None
}

impl ClamavDb {
    /// Reads a signature archive: after its 512-byte header, a gzip stream
    /// holding a tar of signature files, whose members are applied in the
    /// order the stream yields them. Fails with an I/O error when the header
    /// is short (the tables then unchanged), or with the message of the
    /// first error in the stream, after the members read before it.
    pub fn parse_cvd(&mut self, bytes: &[u8]) -> (r: Result<(), ScanError>)
        ensures
            r is Ok <==> cvd_readable(bytes@),
            bytes@.len() < 512 ==> (r matches Err(ScanError::Io(m)) && m@ == "failed to fill whole buffer"@)
                && final(self).md5_names() == old(self).md5_names()
                && final(self).sha256_names() == old(self).sha256_names(),
            bytes@.len() >= 512 ==> ({
                let read = cvd_members_of(bytes@.skip(512));
                let res = apply_members(old(self).md5_names(), old(self).sha256_names(), read.0);
                &&& final(self).md5_names() == res.0 && final(self).sha256_names() == res.1
                &&& match read.1 {
                    Some(msg) => r matches Err(ScanError::Io(m)) && m@ == msg,
                    None => r is Ok,
                }
            }),
            final(self).path() == old(self).path(),
            final(self).updated() == old(self).updated(),
    {
        if bytes.len() < 512 {
            return Err(ScanError::Io("failed to fill whole buffer".to_owned()));
        }
        let body = vstd::slice::slice_subrange(bytes, 512, bytes.len());
        proof {
            assert(body@ =~= bytes@.skip(512));
        }
        let (members, failure) = cvd_members(body);
        let ghost ms = members_view(members@);
        let ghost md5_start = self.md5_names();
        let ghost sha_start = self.sha256_names();
        let mut i: usize = 0;
        while i < members.len()
            invariant
                ms == members_view(members@),
                i <= members@.len(),
                (self.md5_names(), self.sha256_names()) == apply_members(md5_start, sha_start, ms.take(i as int)),
                self.path() == old(self).path(),
                self.updated() == old(self).updated(),
            decreases members@.len() - i,
        {
            proof {
                assert(ms.take(i + 1).drop_last() =~= ms.take(i as int));
                assert(ms.take(i + 1).last() == (members@[i as int].path@, members@[i as int].content@));
            }
            let m = &members[i];
            match db_file_kind(m.path.as_str()) {
                DbFileKind::Md5 => self.parse_hash_lines(m.content.as_slice(), HashType::Md5),
                DbFileKind::Sha256 => self.parse_hash_lines(m.content.as_slice(), HashType::Sha256),
                DbFileKind::Sha1OrSha256 => self.parse_hash_lines(m.content.as_slice(), HashType::Sha1OrSha256),
                _ => {},
            }
            i += 1;
        }
        proof {
            assert(ms.take(members@.len() as int) =~= ms);
        }
        match failure {
            Some(msg) => Err(ScanError::Io(msg)),
            None => Ok(()),
        }
    }

    /// Reads one file of the database directory by what it holds: MD5 or
    /// SHA-256 signature lines, or a signature archive; other files are
    /// skipped. Only an unreadable archive fails, as `parse_cvd` does.
    pub fn apply_db_file(&mut self, kind: DbFileKind, content: &[u8]) -> (r: Result<(), ScanError>)
        ensures
            kind == DbFileKind::Md5 ==> r is Ok
                && final(self).md5_names() == apply_file(old(self).md5_names(), content@, HashType::Md5)
                && final(self).sha256_names() == old(self).sha256_names(),
            kind == DbFileKind::Sha256 ==> r is Ok
                && final(self).sha256_names() == apply_file(old(self).sha256_names(), content@, HashType::Sha256)
                && final(self).md5_names() == old(self).md5_names(),
            kind == DbFileKind::Sha1OrSha256 ==> r is Ok
                && final(self).sha256_names() == apply_file(old(self).sha256_names(), content@, HashType::Sha1OrSha256)
                && final(self).md5_names() == old(self).md5_names(),
            kind == DbFileKind::Archive ==> (r is Ok <==> cvd_readable(content@)) && (r matches Err(e) ==> e is Io)
                && (content@.len() < 512 ==> final(self).md5_names() == old(self).md5_names()
                    && final(self).sha256_names() == old(self).sha256_names())
                && (content@.len() >= 512 ==> ({
                    let ms = cvd_members_of(content@.skip(512)).0;
                    let res = apply_members(old(self).md5_names(), old(self).sha256_names(), ms);
                    final(self).md5_names() == res.0 && final(self).sha256_names() == res.1
                })),
            kind == DbFileKind::Ignored ==> r is Ok && final(self).md5_names() == old(self).md5_names()
                && final(self).sha256_names() == old(self).sha256_names(),
            final(self).path() == old(self).path(),
            final(self).updated() == old(self).updated(),
    {
        match kind {
            DbFileKind::Md5 => {
                self.parse_hash_lines(content, HashType::Md5);
                Ok(())
            },
            DbFileKind::Sha256 => {
                self.parse_hash_lines(content, HashType::Sha256);
                Ok(())
            },
            DbFileKind::Sha1OrSha256 => {
                self.parse_hash_lines(content, HashType::Sha1OrSha256);
                Ok(())
            },
            DbFileKind::Archive => self.parse_cvd(content),
            DbFileKind::Ignored => Ok(()),
        }
    }
}

/// No line after the `i`-th gives the digest `k`.
pub open spec fn no_later_line_for(lines: Seq<Seq<u8>>, t: HashType, i: int, k: Seq<char>) -> bool {
    forall|j: int| i < j < lines.len() ==> match #[trigger] line_signature(lines[j], t) {
        Some(sig) => sig.0 != k,
        None => true,
    }
}

/// After signature lines are read, looking up the digest of a line gives
/// the name on the last line with that digest.
pub proof fn lookup_gives_last_name(m: Map<Seq<char>, Seq<char>>, lines: Seq<Seq<u8>>, t: HashType, i: int, k: Seq<char>, v: Seq<char>)
    requires
        0 <= i < lines.len(),
        line_signature(lines[i], t) == Some((k, v)),
        no_later_line_for(lines, t, i, k),
    ensures
        apply_lines(m, lines, t).contains_key(k),
        apply_lines(m, lines, t)[k] == v,
    decreases lines.len(),
{
    if i < lines.len() - 1 {
        let shorter = lines.drop_last();
        assert(shorter[i] == lines[i]);
        assert forall|j: int| i < j < shorter.len() implies match #[trigger] line_signature(shorter[j], t) {
            Some(sig) => sig.0 != k,
            None => true,
        } by {
            assert(shorter[j] == lines[j]);
            assert(match line_signature(lines[j], t) { Some(sig) => sig.0 != k, None => true });
        }
        lookup_gives_last_name(m, shorter, t, i, k, v);
        assert(match line_signature(lines[lines.len() - 1], t) { Some(sig) => sig.0 != k, None => true });
    }
}

/// Digests that no line gives keep what the table held before.
pub proof fn other_digests_untouched(m: Map<Seq<char>, Seq<char>>, lines: Seq<Seq<u8>>, t: HashType, k: Seq<char>)
    requires
        no_later_line_for(lines, t, -1, k),
    ensures
        apply_lines(m, lines, t).contains_key(k) == m.contains_key(k),
        m.contains_key(k) ==> apply_lines(m, lines, t)[k] == m[k],
    decreases lines.len(),
{
    if lines.len() > 0 {
        let shorter = lines.drop_last();
        assert forall|j: int| -1 < j < shorter.len() implies match #[trigger] line_signature(shorter[j], t) {
            Some(sig) => sig.0 != k,
            None => true,
        } by {
            assert(shorter[j] == lines[j]);
            assert(match line_signature(lines[j], t) { Some(sig) => sig.0 != k, None => true });
        }
        other_digests_untouched(m, shorter, t, k);
        assert(match line_signature(lines[lines.len() - 1], t) { Some(sig) => sig.0 != k, None => true });
    }
}

/// The digest field of a line: the first `:`-separated field of its
/// trimmed text.
pub open spec fn digest_field(line: Seq<u8>) -> Seq<char> {
    split_all(trim(vstd::utf8::decode_utf8(line)), ':')[0]
}

/// The digest that a line gives.
pub open spec fn signature_digest(line: Seq<u8>, t: HashType) -> Seq<char> {
    match line_signature(line, t) {
        Some(sig) => sig.0,
        None => seq![],
    }
}

/// Reading a signature file never drops a digest: every digest that was in
/// the table before is in it afterwards.
pub proof fn digests_are_never_dropped(m: Map<Seq<char>, Seq<char>>, lines: Seq<Seq<u8>>, t: HashType, k: Seq<char>)
    requires
        m.contains_key(k),
    ensures
        apply_lines(m, lines, t).contains_key(k),
    decreases lines.len(),
{
    if lines.len() > 0 {
        digests_are_never_dropped(m, lines.drop_last(), t, k);
    }
}

/// A digest that a line gives from an ASCII field is stored lower-case,
/// and has a length that its file type allows.
pub proof fn stored_digests_are_lower_case(line: Seq<u8>, t: HashType)
    requires
        line_signature(line, t) is Some,
        is_ascii_text(digest_field(line)),
    ensures
        no_ascii_upper(signature_digest(line, t)),
        digest_len_ok(t, vstd::utf8::encode_utf8(signature_digest(line, t)).len()),
{
    let f = digest_field(line);
    let k = signature_digest(line, t);
    assert(k == ascii_lower_text(f));
    assert forall|i: int| 0 <= i < k.len() implies !('A' <= #[trigger] k[i] && k[i] <= 'Z') by {
        let c = f[i];
        assert(k[i] == ascii_lower_char(c));
        if 'A' <= c && c <= 'Z' {
            assert((c as u32) + 32 >= 97);
            assert(k[i] == ((c as u32) + 32) as char);
        }
    }
}

/// Every digest that reading lines adds to a table comes from one of the
/// lines, and has a length that the file type allows.
pub proof fn added_digests_come_from_lines(m: Map<Seq<char>, Seq<char>>, lines: Seq<Seq<u8>>, t: HashType, k: Seq<char>)
    requires
        apply_lines(m, lines, t).contains_key(k),
        !m.contains_key(k),
    ensures
        exists|i: int| 0 <= i < lines.len() && line_signature(lines[i], t) is Some && #[trigger] signature_digest(lines[i], t) == k,
        digest_len_ok(t, vstd::utf8::encode_utf8(k).len()),
    decreases lines.len(),
{
    let prev = apply_lines(m, lines.drop_last(), t);
    match line_signature(lines.last(), t) {
        Some(sig) => {
            if sig.0 == k {
                assert(signature_digest(lines[lines.len() - 1], t) == k);
            } else {
                added_digests_come_from_lines(m, lines.drop_last(), t, k);
                let i = choose|i: int| 0 <= i < lines.drop_last().len()
                    && line_signature(lines.drop_last()[i], t) is Some && #[trigger] signature_digest(lines.drop_last()[i], t) == k;
                assert(lines.drop_last()[i] == lines[i]);
            }
        },
        None => {
            added_digests_come_from_lines(m, lines.drop_last(), t, k);
            let i = choose|i: int| 0 <= i < lines.drop_last().len()
                && line_signature(lines.drop_last()[i], t) is Some && #[trigger] signature_digest(lines.drop_last()[i], t) == k;
            assert(lines.drop_last()[i] == lines[i]);
        },
    }
}

/// Reading a signature archive applies each member as the directory reader
/// applies a file of the same extension: after one more member, a `.hdb`
/// member has been read into the MD5 table, a `.msb` member into the SHA-256
/// table with SHA-256 digests, a `.hsb` member into the SHA-256 table with
/// SHA-1 or SHA-256 digests, each leaving the other table as it was; any
/// other member changes nothing.
pub proof fn archive_members_read_like_files(
    md5: Map<Seq<char>, Seq<char>>,
    sha: Map<Seq<char>, Seq<char>>,
    ms: Seq<(Seq<char>, Seq<u8>)>,
    name: Seq<char>,
    content: Seq<u8>,
)
    ensures
        path_extension(name) == Some("hdb"@) ==> apply_members(md5, sha, ms.push((name, content)))
            == (apply_file(apply_members(md5, sha, ms).0, content, HashType::Md5), apply_members(md5, sha, ms).1),
        path_extension(name) == Some("msb"@) ==> apply_members(md5, sha, ms.push((name, content)))
            == (apply_members(md5, sha, ms).0, apply_file(apply_members(md5, sha, ms).1, content, HashType::Sha256)),
        path_extension(name) == Some("hsb"@) ==> apply_members(md5, sha, ms.push((name, content)))
            == (apply_members(md5, sha, ms).0, apply_file(apply_members(md5, sha, ms).1, content, HashType::Sha1OrSha256)),
        path_extension(name) != Some("hdb"@) && path_extension(name) != Some("msb"@)
            && path_extension(name) != Some("hsb"@)
            ==> apply_members(md5, sha, ms.push((name, content))) == apply_members(md5, sha, ms),
{
    reveal_strlit("hdb");
    reveal_strlit("hsb");
    reveal_strlit("msb");
    reveal_strlit("cvd");
    reveal_strlit("cld");
    assert("msb"@ != "hdb"@) by { assert("msb"@[0] != "hdb"@[0]); }
    assert("msb"@ != "hsb"@) by { assert("msb"@[0] != "hsb"@[0]); }
    assert("hsb"@ != "hdb"@) by { assert("hsb"@[1] != "hdb"@[1]); }
    let all = ms.push((name, content));
    assert(all.drop_last() =~= ms);
    assert(all.last() == (name, content));
}

/// Reading members one list after another is reading them all at once.
pub proof fn archive_members_compose(
    md5: Map<Seq<char>, Seq<char>>,
    sha: Map<Seq<char>, Seq<char>>,
    ms1: Seq<(Seq<char>, Seq<u8>)>,
    ms2: Seq<(Seq<char>, Seq<u8>)>,
)
    ensures
        apply_members(md5, sha, ms1 + ms2)
            == apply_members(apply_members(md5, sha, ms1).0, apply_members(md5, sha, ms1).1, ms2),
    decreases ms2.len(),
{
    if ms2.len() == 0 {
        assert(ms1 + ms2 =~= ms1);
    } else {
        archive_members_compose(md5, sha, ms1, ms2.drop_last());
        assert((ms1 + ms2).drop_last() =~= ms1 + ms2.drop_last());
        assert((ms1 + ms2).last() == ms2.last());
    }
}

} // verus!
