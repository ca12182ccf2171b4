# filescanner

Static analysis of uploaded files for a web malware scanner: digests, file
type detection, executable (PE, ELF, Mach-O), archive, PDF and shortcut
inspection, indicator extraction from printable strings, pattern rules,
signature-database lookups and an aggregated verdict.

- `src/` is the library, written in Verus: every function carries a
  contract and is verified. Calls into outside crates (`goblin`, `infer`,
  `regex`, `zip`, `flate2`, `tar`, the digest crates, `hex`, `chrono`) go
  through small trusted wrappers whose contracts name what the crate
  computes.
- `app/` is the HTTP server (`axum`): uploads, the online reputation
  lookup (`reqwest`), reading the signature files from disk, the
  floating-point entropy figures and the JSON report.
- `tests/` exercises the library on concrete inputs.

Modules of the library: `text` (character and byte helpers), `types`
(report records), `hash`, `mime`, `binary`, `archive`, `pdf`, `lnk`,
`strings` and `sorted` (indicator extraction), `yara` (pattern rules),
`clamav` (signature database), `vt` (reputation lookup decisions),
`entropy` (byte counts), `upload`, `score` (score and verdict) and
`pipeline` (the scan of one file).

Sets of strings (`src/sorted.rs`). The indicator lists are sets of strings
that come out in increasing order. vstd specifies `BTreeSet`, but every
clause it gives (`insert`, `contains`, `iter`) holds only under
`obeys_cmp::<Key>()`, and vstd gives `String` no ordering specification, so
for `BTreeSet<String>` that condition cannot be proved and nothing is known
of the set's contents. The library therefore keeps each set as a strictly
increasing `Vec<String>` under the same code-point order, with its
invariant stated and proved, and the merge that inserts into it verified.
