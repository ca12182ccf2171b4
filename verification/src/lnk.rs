//! Windows shortcut (.lnk) inspection: the printable text of the shortcut,
//! ASCII and UTF-16LE, is searched for command-line tricks.

use vstd::prelude::*;
use crate::text::{
    chars_of, contains_chars, seq_contains, split_lines, split_lines_exec, string_of, take_at_most,
    take_chars, to_lowercase, trim, trim_chars, unicode_lower,
};
use crate::types::{ioc_view, iocs_view, strings_view, IoC, LnkInfo, Severity};

verus! {

/// A printable ASCII code (0x20 to 0x7E).
pub open spec fn printable_code(c: u32) -> bool {
    0x20 <= c <= 0x7e
}

/// Output so far and the run in progress after reading `codes`: printable
/// codes extend the run; any other code ends it, and a run of at least
/// `min` characters goes to the output followed by a newline.
pub open spec fn runs_state(codes: Seq<u32>, min: nat) -> (Seq<char>, Seq<char>)
    decreases codes.len(),
{
    if codes.len() == 0 {
        (seq![], seq![])
    } else {
        let st = runs_state(codes.drop_last(), min);
        let c = codes.last();
        if printable_code(c) {
            (st.0, st.1.push((c as u8) as char))
        } else if st.1.len() >= min {
            (st.0 + st.1 + seq!['\n'], seq![])
        } else {
            (st.0, seq![])
        }
    }
}

/// The printable runs of at least `min` characters, each followed by a
/// newline except a run that reaches the end.
pub open spec fn printable_runs(codes: Seq<u32>, min: nat) -> Seq<char> {
    let st = runs_state(codes, min);
    if st.1.len() >= min { st.0 + st.1 } else { st.0 }
}

/// The bytes as codes.
pub open spec fn byte_codes(data: Seq<u8>) -> Seq<u32> {
    data.map_values(|b: u8| b as u32)
}

/// The bytes read as little-endian 16-bit units; a last odd byte is left out.
pub open spec fn utf16_codes(data: Seq<u8>) -> Seq<u32> {
    Seq::new(data.len() / 2, |i: int| (data[2 * i] + 256 * data[2 * i + 1]) as u32)
}

/// The ASCII text, a newline, then the UTF-16LE text of the shortcut.
pub open spec fn shortcut_text(data: Seq<u8>) -> Seq<char> {
    printable_runs(byte_codes(data), 4) + seq!['\n'] + printable_runs(utf16_codes(data), 4)
}

/// The suspicious patterns: text, description, severity.
pub open spec fn lnk_patterns() -> Seq<(&'static str, &'static str, Severity)> {
    seq![
        ("powershell", "PowerShell invoqué depuis un raccourci", Severity::High),
        ("-encodedcommand", "Commande PowerShell encodée", Severity::Critical),
        ("-enc ", "Commande PowerShell encodée (forme courte)", Severity::Critical),
        ("-windowstyle hidden", "Exécution en fenêtre cachée", Severity::High),
        ("cmd.exe /c", "Commande CMD embarquée", Severity::High),
        ("cmd /c", "Commande CMD embarquée", Severity::High),
        ("mshta", "Exécution HTA depuis raccourci", Severity::Critical),
        ("wscript", "Exécution de script WSH", Severity::High),
        ("cscript", "Exécution de script WSH", Severity::High),
        ("rundll32", "Exécution DLL depuis raccourci", Severity::High),
        ("certutil", "Téléchargement/décodage via certutil", Severity::Critical),
        ("bitsadmin", "Téléchargement via BITS", Severity::Critical),
        ("http://", "URL embarquée dans le raccourci", Severity::Medium),
        ("https://", "URL embarquée dans le raccourci", Severity::Medium),
        ("%temp%", "Référence au dossier temporaire", Severity::Medium),
        ("%appdata%", "Référence au dossier AppData", Severity::Medium),
    ]
}

/// The patterns, among the first `n`, that occur in `lower`.
pub open spec fn hits_upto(lower: Seq<char>, n: nat) -> Seq<(&'static str, &'static str, Severity)>
    decreases n,
{
    if n == 0 {
        seq![]
    } else {
        let prev = hits_upto(lower, (n - 1) as nat);
        let p = lnk_patterns()[n - 1];
        if seq_contains(lower, p.0@) { prev.push(p) } else { prev }
    }
}

/// The patterns that occur in `lower`, in table order.
pub open spec fn pattern_hits(lower: Seq<char>) -> Seq<(&'static str, &'static str, Severity)> {
    hits_upto(lower, lnk_patterns().len())
}

/// The line names an executable or a batch file.
pub open spec fn names_program(line: Seq<char>) -> bool {
    seq_contains(unicode_lower(line), ".exe"@) || seq_contains(unicode_lower(line), ".bat"@)
}

/// Index of the first line that names a program, if any.
pub open spec fn first_program_line(lines: Seq<Seq<char>>, from: nat) -> Option<nat>
    decreases lines.len() - from,
{
    if from >= lines.len() {
        None
    } else if names_program(lines[from as int]) {
        Some(from)
    } else {
        first_program_line(lines, from + 1)
    }
}

/// The hint of the shortcut's target: the first line naming a program,
/// trimmed, at most 200 characters.
pub open spec fn target_hint_of(text: Seq<char>) -> Seq<char> {
    let lines = split_lines(text);
    match first_program_line(lines, 0) {
        Some(i) => take_at_most(trim(lines[i as int]), 200),
        None => "Cible non identifiée"@,
    }
}

/// The bytes as codes.
pub fn byte_codes_exec(data: &[u8]) -> (r: Vec<u32>)
    ensures
        r@ == byte_codes(data@),
{
    let mut out: Vec<u32> = Vec::new();
    let mut i: usize = 0;
    while i < data.len()
        invariant
            i <= data@.len(),
            out@ == byte_codes(data@.take(i as int)),
        decreases data@.len() - i,
    {
        out.push(data[i] as u32);
        i += 1;
        proof { assert(out@ =~= byte_codes(data@.take(i as int))); }
    }
    proof { assert(data@.take(data@.len() as int) =~= data@); }
    out
}

fn utf16_codes_exec(data: &[u8]) -> (r: Vec<u32>)
    ensures
        r@ == utf16_codes(data@),
{
    let mut out: Vec<u32> = Vec::new();
    let len = data.len();
    let n = len / 2;
    let mut i: usize = 0;
    while i < n
        invariant
            len == data@.len(),
            n == data@.len() / 2,
            i <= n,
            out@ == utf16_codes(data@).take(i as int),
        decreases n - i,
    {
        proof {
            assert(2 * i + 1 < data@.len()) by (nonlinear_arith)
                requires
                    i < n,
                    n == data@.len() / 2,
            ;
        }
        let c = data[2 * i] as u32 + 256 * (data[2 * i + 1] as u32);
        out.push(c);
        i += 1;
        proof { assert(out@ =~= utf16_codes(data@).take(i as int)); }
    }
    proof { assert(out@ =~= utf16_codes(data@)); }
    out
}

/// The printable runs of at least `min` characters of the codes.
pub fn printable_runs_exec(codes: &[u32], min: usize) -> (r: Vec<char>)
    ensures
        r@ == printable_runs(codes@, min as nat),
{
    let mut out: Vec<char> = Vec::new();
    let mut cur: Vec<char> = Vec::new();
    let mut i: usize = 0;
    while i < codes.len()
        invariant
            i <= codes@.len(),
            (out@, cur@) == runs_state(codes@.take(i as int), min as nat),
        decreases codes@.len() - i,
    {
        proof { assert(codes@.take(i + 1).drop_last() =~= codes@.take(i as int)); }
        let c = codes[i];
        if 0x20 <= c && c <= 0x7e {
            cur.push((c as u8) as char);
        } else {
            if cur.len() >= min {
                out.append(&mut cur);
                out.push('\n');
            }
            cur = Vec::new();
            proof {
                assert((out@, cur@) =~= runs_state(codes@.take(i + 1), min as nat));
            }
        }
        i += 1;
    }
    proof { assert(codes@.take(codes@.len() as int) =~= codes@); }
    if cur.len() >= min {
        out.append(&mut cur);
    }
    out
}

fn names_program_exec(line: &[char]) -> (r: bool)
    ensures
        r == names_program(line@),
{
    let s = string_of(line);
    let lower = chars_of(to_lowercase(s.as_str()).as_str());
    let exe = chars_of(".exe");
    let bat = chars_of(".bat");
    contains_chars(lower.as_slice(), exe.as_slice()) || contains_chars(lower.as_slice(), bat.as_slice())
}

/// The suspicious patterns found in the lower-cased text of a shortcut, in
/// table order: each pattern, and its indicator.
pub fn shortcut_pattern_hits(lower: &[char]) -> (r: (Vec<String>, Vec<IoC>))
    ensures
        strings_view(r.0@) == pattern_hits(lower@).map_values(|p: (&'static str, &'static str, Severity)| p.0@),
        iocs_view(r.1@) == pattern_hits(lower@).map_values(
            |p: (&'static str, &'static str, Severity)| ("Raccourci LNK"@, p.0@, p.2, p.1@),
        ),
{
    let patterns: [(&str, &str, Severity); 16] = [
        ("powershell", "PowerShell invoqué depuis un raccourci", Severity::High),
        ("-encodedcommand", "Commande PowerShell encodée", Severity::Critical),
        ("-enc ", "Commande PowerShell encodée (forme courte)", Severity::Critical),
        ("-windowstyle hidden", "Exécution en fenêtre cachée", Severity::High),
        ("cmd.exe /c", "Commande CMD embarquée", Severity::High),
        ("cmd /c", "Commande CMD embarquée", Severity::High),
        ("mshta", "Exécution HTA depuis raccourci", Severity::Critical),
        ("wscript", "Exécution de script WSH", Severity::High),
        ("cscript", "Exécution de script WSH", Severity::High),
        ("rundll32", "Exécution DLL depuis raccourci", Severity::High),
        ("certutil", "Téléchargement/décodage via certutil", Severity::Critical),
        ("bitsadmin", "Téléchargement via BITS", Severity::Critical),
        ("http://", "URL embarquée dans le raccourci", Severity::Medium),
        ("https://", "URL embarquée dans le raccourci", Severity::Medium),
        ("%temp%", "Référence au dossier temporaire", Severity::Medium),
        ("%appdata%", "Référence au dossier AppData", Severity::Medium),
    ];
    proof { assert(patterns@ =~= lnk_patterns()); }

    let mut suspicious_args: Vec<String> = Vec::new();
    let mut ioc_list: Vec<IoC> = Vec::new();
    let mut i: usize = 0;
    while i < 16
        invariant
            patterns@ == lnk_patterns(),
            i <= 16,
            strings_view(suspicious_args@) == hits_upto(lower@, i as nat).map_values(
                |p: (&'static str, &'static str, Severity)| p.0@,
            ),
            iocs_view(ioc_list@) == hits_upto(lower@, i as nat).map_values(
                |p: (&'static str, &'static str, Severity)| ("Raccourci LNK"@, p.0@, p.2, p.1@),
            ),
        decreases 16 - i,
    {
        let (pattern, description, severity) = patterns[i];
        proof {
            assert(lnk_patterns()[i as int] == (pattern, description, severity));
        }
        let pc = chars_of(pattern);
        let hit = contains_chars(lower, pc.as_slice());
        proof {
            if hit {
                assert(hits_upto(lower@, (i + 1) as nat) == hits_upto(lower@, i as nat).push(lnk_patterns()[i as int]));
            } else {
                assert(hits_upto(lower@, (i + 1) as nat) == hits_upto(lower@, i as nat));
            }
        }
        if hit {
            let ghost old_args = suspicious_args@;
            let ghost old_iocs = ioc_list@;
            suspicious_args.push(pattern.to_owned());
            ioc_list.push(IoC::new("Raccourci LNK", pattern, severity, description));
            proof {
                assert(strings_view(suspicious_args@) =~= strings_view(old_args).push(pattern@));
                assert(iocs_view(ioc_list@) =~= iocs_view(old_iocs).push(("Raccourci LNK"@, pattern@, severity, description@)));
                assert(strings_view(suspicious_args@) =~= hits_upto(lower@, (i + 1) as nat).map_values(
                    |p: (&'static str, &'static str, Severity)| p.0@,
                ));
                assert(iocs_view(ioc_list@) =~= hits_upto(lower@, (i + 1) as nat).map_values(
                    |p: (&'static str, &'static str, Severity)| ("Raccourci LNK"@, p.0@, p.2, p.1@),
                ));
            }
        }
        i += 1;
    }
    (suspicious_args, ioc_list)
}

/// The shortcut findings: the patterns found in the lower-cased text, one
/// indicator per pattern, and the hint of the target.
pub open spec fn lnk_findings_hold(info: LnkInfo, iocs: Seq<IoC>, data: Seq<u8>) -> bool {
    let hits = pattern_hits(unicode_lower(shortcut_text(data)));
    &&& strings_view(info.suspicious_args@) == hits.map_values(
        |p: (&'static str, &'static str, Severity)| p.0@,
    )
    &&& iocs_view(iocs) == hits.map_values(
        |p: (&'static str, &'static str, Severity)| ("Raccourci LNK"@, p.0@, p.2, p.1@),
    )
    &&& info.target_hint@ == target_hint_of(shortcut_text(data))
}

/// Inspects a shortcut: the patterns found in its lower-cased text, one
/// indicator per pattern, and a hint of its target.
pub fn analyze(data: &[u8]) -> (r: (LnkInfo, Vec<IoC>))
    ensures
        lnk_findings_hold(r.0, r.1@, data@),
{
    let ascii = printable_runs_exec(byte_codes_exec(data).as_slice(), 4);
    let wide = printable_runs_exec(utf16_codes_exec(data).as_slice(), 4);
    let mut combined: Vec<char> = ascii;
    combined.push('\n');
    let mut w = wide;
    combined.append(&mut w);
    let ghost text = combined@;
    proof { assert(text =~= shortcut_text(data@)); }
    let combined_s = string_of(combined.as_slice());
    let lower = chars_of(to_lowercase(combined_s.as_str()).as_str());

    let (suspicious_args, ioc_list) = shortcut_pattern_hits(lower.as_slice());

    let lines = split_lines_exec(combined.as_slice());
    let ghost lv = lines@.map_values(|l: Vec<char>| l@);
    let mut found: Option<usize> = None;
    let mut k: usize = 0;
    while k < lines.len()
        invariant_except_break
            found is None,
        invariant
            lv == lines@.map_values(|l: Vec<char>| l@),
            lv == split_lines(text),
            k <= lines@.len(),
            first_program_line(lv, 0) == first_program_line(lv, k as nat),
        ensures
            found matches Some(idx) ==> idx < lines@.len() && first_program_line(lv, 0) == Some(idx as nat),
            found is None ==> first_program_line(lv, 0) is None,
        decreases lines@.len() - k,
    {
        if names_program_exec(lines[k].as_slice()) {
            found = Some(k);
            break;
        }
        k += 1;
    }
    let target_hint = match found {
        Some(idx) => {
            let t = trim_chars(lines[idx].as_slice());
            let ts = string_of(t.as_slice());
            take_chars(ts.as_str(), 200)
        },
        None => "Cible non identifiée".to_owned(),
    };
    (LnkInfo { target_hint, suspicious_args }, ioc_list)
}

/// Each suspicious argument of a shortcut comes with one indicator, in the
/// same order, whose value is that argument.
pub proof fn arguments_match_indicators(info: LnkInfo, iocs: Seq<IoC>, data: Seq<u8>)
    requires
        lnk_findings_hold(info, iocs, data),
    ensures
        info.suspicious_args@.len() == iocs.len(),
        forall|k: int| 0 <= k < iocs.len() ==> (#[trigger] iocs[k]).value@ == info.suspicious_args@[k]@,
{
    let hits = pattern_hits(unicode_lower(shortcut_text(data)));
    assert(strings_view(info.suspicious_args@).len() == hits.len());
    assert(iocs_view(iocs).len() == hits.len());
    assert forall|k: int| 0 <= k < iocs.len() implies (#[trigger] iocs[k]).value@ == info.suspicious_args@[k]@ by {
        assert(iocs_view(iocs)[k] == ioc_view(iocs[k]));
        assert(strings_view(info.suspicious_args@)[k] == info.suspicious_args@[k]@);
    }
}

/// The maximal printable runs of at least `min` codes, as a list: the
/// runs finished so far and the run in progress.
pub open spec fn runs_list_state(codes: Seq<u32>, min: nat) -> (Seq<Seq<char>>, Seq<char>)
    decreases codes.len(),
{
    if codes.len() == 0 {
        (seq![], seq![])
    } else {
        let st = runs_list_state(codes.drop_last(), min);
        let c = codes.last();
        if printable_code(c) {
            (st.0, st.1.push((c as u8) as char))
        } else if st.1.len() >= min {
            (st.0.push(st.1), seq![])
        } else {
            (st.0, seq![])
        }
    }
}

/// The maximal printable runs of at least `min` codes, in order.
pub open spec fn runs_list(codes: Seq<u32>, min: nat) -> Seq<Seq<char>> {
    let st = runs_list_state(codes, min);
    if st.1.len() >= min { st.0.push(st.1) } else { st.0 }
}

/// The text holds no newline.
pub open spec fn no_newline(s: Seq<char>) -> bool {
    forall|i: int| 0 <= i < s.len() ==> s[i] != '\n'
}

/// Reading text without a newline extends the line in progress.
proof fn lines_of_plain_tail(x: Seq<char>, w: Seq<char>)
    requires
        no_newline(w),
    ensures
        crate::text::lines_state(x + w) == (crate::text::lines_state(x).0, crate::text::lines_state(x).1 + w),
    decreases w.len(),
{
    if w.len() == 0 {
        assert(x + w =~= x);
        assert(crate::text::lines_state(x).1 + w =~= crate::text::lines_state(x).1);
    } else {
        lines_of_plain_tail(x, w.drop_last());
        assert((x + w).drop_last() =~= x + w.drop_last());
        assert((x + w).last() == w.last());
        assert(crate::text::lines_state(x).1 + w =~= (crate::text::lines_state(x).1 + w.drop_last()).push(w.last()));
    }
}

/// The lines of the printable runs are the runs: the text finished so far
/// splits into the finished runs, and the run in progress holds no newline.
proof fn runs_split_into_lines(codes: Seq<u32>, min: nat)
    requires
        min >= 1,
    ensures
        crate::text::lines_state(runs_state(codes, min).0) == (runs_list_state(codes, min).0, Seq::<char>::empty()),
        runs_state(codes, min).1 == runs_list_state(codes, min).1,
        no_newline(runs_state(codes, min).1),
    decreases codes.len(),
{
    if codes.len() > 0 {
        runs_split_into_lines(codes.drop_last(), min);
        let st = runs_state(codes.drop_last(), min);
        let c = codes.last();
        if printable_code(c) {
            assert(((c as u8) as char) != '\n') by {
                assert((c as u8) as u32 == c);
            }
        } else if st.1.len() >= min {
            let x = st.0;
            lines_of_plain_tail(x, st.1);
            assert(st.0 + st.1 + seq!['\n'] =~= (x + st.1).push('\n'));
            assert(crate::text::lines_state((x + st.1).push('\n')).0
                == crate::text::lines_state(x + st.1).0.push(crate::text::lines_state(x + st.1).1)) by {
                assert((x + st.1).push('\n').drop_last() =~= x + st.1);
            }
            assert(Seq::<char>::empty() + st.1 =~= st.1);
        }
    }
}

/// The lines of the printable runs are exactly the maximal runs of at
/// least `min` printable codes, in order.
pub proof fn printable_runs_lines(codes: Seq<u32>, min: nat)
    requires
        min >= 1,
    ensures
        crate::text::split_lines(printable_runs(codes, min)) == runs_list(codes, min),
{
    runs_split_into_lines(codes, min);
    let st = runs_state(codes, min);
    if st.1.len() >= min {
        lines_of_plain_tail(st.0, st.1);
        assert(Seq::<char>::empty() + st.1 =~= st.1);
    }
}

/// Whether a line names a program does not depend on letter case: two lines
/// that lower-case alike both name one or both do not (`CMD.EXE` counts as
/// `cmd.exe` does).
pub proof fn program_lines_ignore_case(l1: Seq<char>, l2: Seq<char>)
    requires
        unicode_lower(l1) == unicode_lower(l2),
    ensures
        names_program(l1) == names_program(l2),
{
}

/// The line that gives the target hint does not depend on letter case: two
/// texts whose lines lower-case alike, line by line, pick the same line.
pub proof fn hint_line_ignores_case(lines1: Seq<Seq<char>>, lines2: Seq<Seq<char>>, from: nat)
    requires
        lines1.len() == lines2.len(),
        forall|k: int| 0 <= k < lines1.len() ==> unicode_lower(#[trigger] lines1[k]) == unicode_lower(lines2[k]),
    ensures
        first_program_line(lines1, from) == first_program_line(lines2, from),
    decreases lines1.len() - from,
{
    if from < lines1.len() {
        program_lines_ignore_case(lines1[from as int], lines2[from as int]);
        hint_line_ignores_case(lines1, lines2, from + 1);
    }
}

/// A line is chosen for the target hint exactly when its lower-cased text
/// contains `.exe` or `.bat`: the hint is the first such line.
pub proof fn hint_line_is_first_program_line(lines: Seq<Seq<char>>, from: nat)
    ensures
        match first_program_line(lines, from) {
            Some(i) => from <= i < lines.len()
                && (seq_contains(unicode_lower(lines[i as int]), ".exe"@) || seq_contains(unicode_lower(lines[i as int]), ".bat"@))
                && forall|k: int| from <= k < i ==> !seq_contains(unicode_lower(#[trigger] lines[k]), ".exe"@)
                    && !seq_contains(unicode_lower(lines[k]), ".bat"@),
            None => forall|k: int| from <= k < lines.len() ==> !seq_contains(unicode_lower(#[trigger] lines[k]), ".exe"@)
                && !seq_contains(unicode_lower(lines[k]), ".bat"@),
        },
    decreases lines.len() - from,
{
    if from < lines.len() {
        hint_line_is_first_program_line(lines, from + 1);
    }
}

} // verus!
