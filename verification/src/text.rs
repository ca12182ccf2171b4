//! Character and byte helpers shared by the analyzers.

use vstd::prelude::*;

verus! {

/// `needle` occurs as a contiguous block of `hay`.
pub open spec fn seq_contains<T>(hay: Seq<T>, needle: Seq<T>) -> bool {
    exists|i: int| 0 <= i <= hay.len() - needle.len() && #[trigger] hay.subrange(i, i + needle.len()) == needle
}

/// `hay` begins with `prefix`.
pub open spec fn seq_starts_with<T>(hay: Seq<T>, prefix: Seq<T>) -> bool {
    prefix.len() <= hay.len() && hay.subrange(0, prefix.len() as int) == prefix
}

/// The characters of a string slice, in order.
pub fn chars_of(s: &str) -> (r: Vec<char>)
    ensures
        r@ == s@,
{
    broadcast use vstd::string::group_string_axioms;
    let mut out: Vec<char> = Vec::new();
    for c in it: s.chars()
        invariant
            it.seq() == s@,
            out@ == s@.take(it.index() as int),
    {
        out.push(c);
    }
    proof {
        assert(out@ =~= s@);
    }
    out
}

/// Lower-case form of a character sequence, as Rust's `str::to_lowercase`
/// computes it from the Unicode tables.
pub uninterp spec fn unicode_lower(s: Seq<char>) -> Seq<char>;

/// Every character is ASCII.
pub open spec fn is_ascii_text(s: Seq<char>) -> bool {
    forall|i: int| 0 <= i < s.len() ==> (#[trigger] s[i] as u32) < 128
}

/// ASCII lower-casing of one character: `A` to `Z` become `a` to `z`.
pub open spec fn ascii_lower_char(c: char) -> char {
    if 'A' <= c && c <= 'Z' { ((c as u32) + 32) as char } else { c }
}

/// ASCII lower-casing of a text, character by character.
pub open spec fn ascii_lower_text(s: Seq<char>) -> Seq<char> {
    s.map_values(|c: char| ascii_lower_char(c))
}

/// The text holds no upper-case ASCII letter.
pub open spec fn no_ascii_upper(s: Seq<char>) -> bool {
    forall|i: int| 0 <= i < s.len() ==> !('A' <= #[trigger] s[i] && s[i] <= 'Z')
}

/// Calls `str::to_lowercase`; the result is the Unicode lower-case mapping
/// of the argument, which the contract names rather than restates, except
/// that an ASCII text is lower-cased letter by letter (`A`-`Z` to `a`-`z`,
/// other characters kept), as the Unicode mapping does for ASCII.
#[verifier::external_body]
pub(crate) fn to_lowercase(s: &str) -> (r: String)
    ensures
        r@ == unicode_lower(s@),
        is_ascii_text(s@) ==> r@ == ascii_lower_text(s@),
{
    s.to_lowercase()
}

/// Calls `FromIterator<char>` for `String`: the string holds exactly the
/// given characters, in order.
#[verifier::external_body]
pub(crate) fn string_of(cs: &[char]) -> (r: String)
    ensures
        r@ == cs@,
{
    cs.iter().collect()
}

/// The block `hay[i..i + needle.len()]` equals `needle`.
pub fn bytes_match_at(hay: &[u8], needle: &[u8], i: usize) -> (r: bool)
    requires
        i + needle@.len() <= hay@.len(),
    ensures
        r == (hay@.subrange(i as int, i + needle@.len()) == needle@),
{
    let n = needle.len();
    let mut k: usize = 0;
    while k < n
        invariant
            n == needle@.len(),
            i + n <= hay.len(),
            k <= n,
            forall|j: int| 0 <= j < k ==> hay@[i + j] == needle@[j],
        decreases n - k,
    {
        if hay[i + k] != needle[k] {
            proof {
                assert(hay@.subrange(i as int, i + n)[k as int] != needle@[k as int]);
            }
            return false;
        }
        k += 1;
    }
    proof {
        assert(hay@.subrange(i as int, i + n) =~= needle@);
    }
    true
}

/// `needle` occurs somewhere in `hay` (an empty needle always occurs).
pub fn contains_bytes(hay: &[u8], needle: &[u8]) -> (r: bool)
    ensures
        r == seq_contains(hay@, needle@),
{
    if needle.len() > hay.len() {
        return false;
    }
    let last = hay.len() - needle.len();
    let mut i: usize = 0;
    while i <= last
        invariant
            last == hay@.len() - needle@.len(),
            i <= last,
            forall|j: int| 0 <= j < i ==> #[trigger] hay@.subrange(j, j + needle@.len()) != needle@,
        ensures
            forall|j: int| 0 <= j <= last ==> #[trigger] hay@.subrange(j, j + needle@.len()) != needle@,
        decreases last - i,
    {
        if bytes_match_at(hay, needle, i) {
            return true;
        }
        if i == last {
            break;
        }
        i += 1;
    }
    false
}

/// The block `hay[i..i + needle.len()]` equals `needle`.
pub fn chars_match_at(hay: &[char], needle: &[char], i: usize) -> (r: bool)
    requires
        i + needle@.len() <= hay@.len(),
    ensures
        r == (hay@.subrange(i as int, i + needle@.len()) == needle@),
{
    let n = needle.len();
    let mut k: usize = 0;
    while k < n
        invariant
            n == needle@.len(),
            i + n <= hay.len(),
            k <= n,
            forall|j: int| 0 <= j < k ==> hay@[i + j] == needle@[j],
        decreases n - k,
    {
        if hay[i + k] != needle[k] {
            proof {
                assert(hay@.subrange(i as int, i + n)[k as int] != needle@[k as int]);
            }
            return false;
        }
        k += 1;
    }
    proof {
        assert(hay@.subrange(i as int, i + n) =~= needle@);
    }
    true
}

/// `needle` occurs somewhere in `hay` (an empty needle always occurs).
pub fn contains_chars(hay: &[char], needle: &[char]) -> (r: bool)
    ensures
        r == seq_contains(hay@, needle@),
{
    if needle.len() > hay.len() {
        return false;
    }
    let last = hay.len() - needle.len();
    let mut i: usize = 0;
    while i <= last
        invariant
            last == hay@.len() - needle@.len(),
            i <= last,
            forall|j: int| 0 <= j < i ==> #[trigger] hay@.subrange(j, j + needle@.len()) != needle@,
        ensures
            forall|j: int| 0 <= j <= last ==> #[trigger] hay@.subrange(j, j + needle@.len()) != needle@,
        decreases last - i,
    {
        if chars_match_at(hay, needle, i) {
            return true;
        }
        if i == last {
            break;
        }
        i += 1;
    }
    false
}

/// `needle` occurs in the string `hay`, as `str::contains` decides it.
pub fn str_contains(hay: &str, needle: &str) -> (r: bool)
    ensures
        r == seq_contains(hay@, needle@),
{
    let h = chars_of(hay);
    let n = chars_of(needle);
    contains_chars(h.as_slice(), n.as_slice())
}

/// `hay` begins with `prefix`.
pub fn starts_with_bytes(hay: &[u8], prefix: &[u8]) -> (r: bool)
    ensures
        r == seq_starts_with(hay@, prefix@),
{
    if prefix.len() > hay.len() {
        return false;
    }
    bytes_match_at(hay, prefix, 0)
}

/// The first `n` elements of `s`, or all of `s` when it is shorter.
pub open spec fn take_at_most<T>(s: Seq<T>, n: nat) -> Seq<T> {
    if s.len() <= n { s } else { s.take(n as int) }
}

/// The first `n` characters of `s` (all of them when `s` is shorter), as
/// `s.chars().take(n).collect::<String>()` gives them.
pub fn take_chars(s: &str, n: usize) -> (r: String)
    ensures
        r@ == take_at_most(s@, n as nat),
{
    let cs = chars_of(s);
    let mut out: Vec<char> = Vec::new();
    let mut i: usize = 0;
    while i < n && i < cs.len()
        invariant
            cs@ == s@,
            i <= cs@.len(),
            i <= n,
            out@ == s@.take(i as int),
        decreases cs@.len() - i,
    {
        out.push(cs[i]);
        i += 1;
        proof { assert(out@ =~= s@.take(i as int)); }
    }
    proof {
        if s@.len() <= n { assert(out@ =~= s@); }
    }
    string_of(out.as_slice())
}

/// ASCII lower-casing of one byte, as `u8::to_ascii_lowercase` defines it.
pub open spec fn ascii_lower(b: u8) -> u8 {
    if 65 <= b <= 90 { (b + 32) as u8 } else { b }
}

/// ASCII lower-casing of one byte.
pub fn to_ascii_lower(b: u8) -> (r: u8)
    ensures
        r == ascii_lower(b),
{
    if 65 <= b && b <= 90 { b + 32 } else { b }
}

/// ASCII lower-casing of every byte of a sequence.
pub open spec fn ascii_lower_seq(s: Seq<u8>) -> Seq<u8> {
    s.map_values(|b: u8| ascii_lower(b))
}

/// ASCII lower-casing of every byte.
pub fn bytes_to_ascii_lower(data: &[u8]) -> (r: Vec<u8>)
    ensures
        r@ == ascii_lower_seq(data@),
{
    let mut out: Vec<u8> = Vec::new();
    let mut i: usize = 0;
    while i < data.len()
        invariant
            i <= data@.len(),
            out@ == ascii_lower_seq(data@.take(i as int)),
        decreases data@.len() - i,
    {
        out.push(to_ascii_lower(data[i]));
        i += 1;
        proof { assert(out@ =~= ascii_lower_seq(data@.take(i as int))); }
    }
    proof { assert(data@.take(data@.len() as int) =~= data@); }
    out
}

/// Decimal digits of a natural number, most significant first.
pub open spec fn decimal(n: nat) -> Seq<char>
    decreases n,
{
    if n < 10 {
        seq![digit_char(n)]
    } else {
        decimal(n / 10).push(digit_char(n % 10))
    }
}

/// The character of a decimal digit.
pub open spec fn digit_char(d: nat) -> char {
    if d == 0 { '0' } else if d == 1 { '1' } else if d == 2 { '2' } else if d == 3 { '3' }
    else if d == 4 { '4' } else if d == 5 { '5' } else if d == 6 { '6' } else if d == 7 { '7' }
    else if d == 8 { '8' } else { '9' }
}

fn digit(d: usize) -> (c: char)
    requires
        d < 10,
    ensures
        c == digit_char(d as nat),
{
    if d == 0 { '0' } else if d == 1 { '1' } else if d == 2 { '2' } else if d == 3 { '3' }
    else if d == 4 { '4' } else if d == 5 { '5' } else if d == 6 { '6' } else if d == 7 { '7' }
    else if d == 8 { '8' } else { '9' }
}

/// Decimal form of `n`, as `format!("{}", n)` writes it.
pub fn decimal_chars(n: usize) -> (r: Vec<char>)
    ensures
        r@ == decimal(n as nat),
    decreases n,
{
    if n < 10 {
        let mut v: Vec<char> = Vec::new();
        v.push(digit(n));
        proof { assert(v@ =~= decimal(n as nat)); }
        v
    } else {
        let mut v = decimal_chars(n / 10);
        v.push(digit(n % 10));
        v
    }
}

/// `hay` ends with `suffix`.
pub open spec fn seq_ends_with<T>(hay: Seq<T>, suffix: Seq<T>) -> bool {
    suffix.len() <= hay.len() && hay.subrange(hay.len() - suffix.len(), hay.len() as int) == suffix
}

/// `hay` ends with `suffix`.
pub fn ends_with_chars(hay: &[char], suffix: &[char]) -> (r: bool)
    ensures
        r == seq_ends_with(hay@, suffix@),
{
    if suffix.len() > hay.len() {
        return false;
    }
    chars_match_at(hay, suffix, hay.len() - suffix.len())
}

/// The part of `s` after its last `sep`, or all of `s` when `sep` does not
/// occur: what `s.rsplit(sep).next()` gives.
pub open spec fn after_last(s: Seq<char>, sep: char) -> Seq<char>
    decreases s.len(),
{
    if s.len() == 0 {
        s
    } else if s.last() == sep {
        seq![]
    } else {
        after_last(s.drop_last(), sep).push(s.last())
    }
}

/// The part of `s` after its last `sep`, or all of `s`.
pub fn after_last_char(s: &[char], sep: char) -> (r: Vec<char>)
    ensures
        r@ == after_last(s@, sep),
{
    let mut start: usize = 0;
    let mut i: usize = 0;
    while i < s.len()
        invariant
            i <= s@.len(),
            start <= i,
            s@.subrange(start as int, i as int) == after_last(s@.take(i as int), sep),
        decreases s@.len() - i,
    {
        proof {
            assert(s@.take(i + 1).drop_last() =~= s@.take(i as int));
        }
        if s[i] == sep {
            start = i + 1;
            proof {
                assert(s@.subrange(start as int, i + 1) =~= Seq::<char>::empty());
            }
        } else {
            proof {
                assert(s@.subrange(start as int, i + 1) =~= s@.subrange(start as int, i as int).push(s@[i as int]));
            }
        }
        i += 1;
    }
    proof {
        assert(s@.take(s@.len() as int) =~= s@);
    }
    let mut out: Vec<char> = Vec::new();
    let mut k: usize = start;
    while k < s.len()
        invariant
            start <= k <= s@.len(),
            out@ == s@.subrange(start as int, k as int),
        decreases s@.len() - k,
    {
        out.push(s[k]);
        k += 1;
        proof {
            assert(out@ =~= s@.subrange(start as int, k as int));
        }
    }
    out
}

/// Calls `std::str::from_utf8`: it succeeds exactly when the bytes are
/// well-formed UTF-8, and then gives the characters they encode.
#[verifier::external_body]
pub(crate) fn utf8_decode(bytes: &[u8]) -> (r: Option<String>)
    ensures
        r is Some <==> vstd::utf8::valid_utf8(bytes@),
        r matches Some(s) ==> s@ == vstd::utf8::decode_utf8(bytes@),
{
    std::str::from_utf8(bytes).ok().map(|s| s.to_string())
}

/// The bytes are well-formed UTF-8.
pub fn is_valid_utf8(bytes: &[u8]) -> (r: bool)
    ensures
        r == vstd::utf8::valid_utf8(bytes@),
{
    utf8_decode(bytes).is_some()
}

/// Some string of `list` occurs in `hay`.
pub open spec fn contains_any(hay: Seq<char>, list: Seq<&str>) -> bool {
    exists|j: int| 0 <= j < list.len() && seq_contains(hay, #[trigger] list[j]@)
}

/// `s` equals one of the strings of `list`.
pub open spec fn is_one_of(s: Seq<char>, list: Seq<&str>) -> bool {
    exists|j: int| 0 <= j < list.len() && s == #[trigger] list[j]@
}

/// Two strings hold the same characters.
pub fn str_eq(a: &str, b: &str) -> (r: bool)
    ensures
        r == (a@ == b@),
{
    let x = chars_of(a);
    let y = chars_of(b);
    if x.len() != y.len() {
        return false;
    }
    let r = chars_match_at(x.as_slice(), y.as_slice(), 0);
    proof {
        assert(x@.subrange(0, y@.len() as int) =~= x@);
    }
    r
}

/// Some string of `list` occurs in `hay`.
pub fn any_contained(hay: &str, list: &[&str]) -> (r: bool)
    ensures
        r == contains_any(hay@, list@),
{
    let h = chars_of(hay);
    let mut j: usize = 0;
    while j < list.len()
        invariant
            h@ == hay@,
            j <= list@.len(),
            forall|k: int| 0 <= k < j ==> !seq_contains(hay@, #[trigger] list@[k]@),
        decreases list@.len() - j,
    {
        let n = chars_of(list[j]);
        if contains_chars(h.as_slice(), n.as_slice()) {
            return true;
        }
        j += 1;
    }
    false
}

/// `s` equals one of the strings of `list`.
pub fn any_equal(s: &str, list: &[&str]) -> (r: bool)
    ensures
        r == is_one_of(s@, list@),
{
    let mut j: usize = 0;
    while j < list.len()
        invariant
            j <= list@.len(),
            forall|k: int| 0 <= k < j ==> s@ != #[trigger] list@[k]@,
        decreases list@.len() - j,
    {
        if str_eq(s, list[j]) {
            return true;
        }
        j += 1;
    }
    false
}

/// The characters that `char::is_whitespace` accepts (Unicode White_Space).
pub open spec fn is_whitespace(c: char) -> bool {
    let u = c as u32;
    (9 <= u <= 13) || u == 32 || u == 0x85 || u == 0xa0 || u == 0x1680 || (0x2000 <= u <= 0x200a)
        || u == 0x2028 || u == 0x2029 || u == 0x202f || u == 0x205f || u == 0x3000
}

/// `char::is_whitespace`.
pub fn char_is_whitespace(c: char) -> (r: bool)
    ensures
        r == is_whitespace(c),
{
    let u = c as u32;
    (9 <= u && u <= 13) || u == 32 || u == 0x85 || u == 0xa0 || u == 0x1680 || (0x2000 <= u && u <= 0x200a)
        || u == 0x2028 || u == 0x2029 || u == 0x202f || u == 0x205f || u == 0x3000
}

/// Number of leading whitespace characters.
pub open spec fn leading_ws(s: Seq<char>) -> nat
    decreases s.len(),
{
    if s.len() > 0 && is_whitespace(s[0]) { 1 + leading_ws(s.drop_first()) } else { 0 }
}

/// Number of trailing whitespace characters.
pub open spec fn trailing_ws(s: Seq<char>) -> nat
    decreases s.len(),
{
    if s.len() > 0 && is_whitespace(s.last()) { 1 + trailing_ws(s.drop_last()) } else { 0 }
}

/// `s` without its leading and trailing whitespace, as `str::trim` gives it.
pub open spec fn trim(s: Seq<char>) -> Seq<char> {
    let a = leading_ws(s);
    if a == s.len() { seq![] } else { s.subrange(a as int, s.len() - trailing_ws(s)) }
}

proof fn leading_ws_bound(s: Seq<char>)
    ensures
        leading_ws(s) <= s.len(),
        forall|k: int| 0 <= k < leading_ws(s) ==> is_whitespace(#[trigger] s[k]),
        leading_ws(s) < s.len() ==> !is_whitespace(s[leading_ws(s) as int]),
    decreases s.len(),
{
    if s.len() > 0 && is_whitespace(s[0]) {
        leading_ws_bound(s.drop_first());
        assert forall|k: int| 0 <= k < leading_ws(s) implies is_whitespace(#[trigger] s[k]) by {
            if k > 0 {
                assert(s[k] == s.drop_first()[k - 1]);
            }
        }
    }
}

proof fn trailing_ws_bound(s: Seq<char>)
    ensures
        trailing_ws(s) <= s.len(),
        forall|k: int| s.len() - trailing_ws(s) <= k < s.len() ==> is_whitespace(#[trigger] s[k]),
        trailing_ws(s) < s.len() ==> !is_whitespace(s[s.len() - trailing_ws(s) - 1]),
    decreases s.len(),
{
    if s.len() > 0 && is_whitespace(s.last()) {
        trailing_ws_bound(s.drop_last());
        assert forall|k: int| s.len() - trailing_ws(s) <= k < s.len() implies is_whitespace(#[trigger] s[k]) by {
            if k < s.len() - 1 {
                assert(s[k] == s.drop_last()[k]);
            }
        }
    }
}

proof fn leading_ws_is(s: Seq<char>, n: nat)
    requires
        n <= s.len(),
        forall|k: int| 0 <= k < n ==> is_whitespace(#[trigger] s[k]),
        n < s.len() ==> !is_whitespace(s[n as int]),
    ensures
        leading_ws(s) == n,
    decreases n,
{
    if n > 0 {
        assert forall|k: int| 0 <= k < n - 1 implies is_whitespace(#[trigger] s.drop_first()[k]) by {
            assert(s.drop_first()[k] == s[k + 1]);
        }
        if n - 1 < s.drop_first().len() {
            assert(s.drop_first()[n - 1] == s[n as int]);
        }
        leading_ws_is(s.drop_first(), (n - 1) as nat);
    }
}

proof fn trailing_ws_is(s: Seq<char>, n: nat)
    requires
        n <= s.len(),
        forall|k: int| s.len() - n <= k < s.len() ==> is_whitespace(#[trigger] s[k]),
        n < s.len() ==> !is_whitespace(s[s.len() - n - 1]),
    ensures
        trailing_ws(s) == n,
    decreases n,
{
    if n > 0 {
        let t = s.drop_last();
        assert forall|k: int| t.len() - (n - 1) <= k < t.len() implies is_whitespace(#[trigger] t[k]) by {
            assert(t[k] == s[k]);
        }
        if n - 1 < t.len() {
            assert(t[t.len() - (n - 1) - 1] == s[s.len() - n - 1]);
        }
        trailing_ws_is(t, (n - 1) as nat);
    }
}

/// `s` without leading and trailing whitespace.
pub fn trim_chars(s: &[char]) -> (r: Vec<char>)
    ensures
        r@ == trim(s@),
{
    let mut a: usize = 0;
    while a < s.len() && char_is_whitespace(s[a])
        invariant
            a <= s@.len(),
            forall|k: int| 0 <= k < a ==> is_whitespace(#[trigger] s@[k]),
        decreases s@.len() - a,
    {
        a += 1;
    }
    proof {
        leading_ws_is(s@, a as nat);
    }
    if a == s.len() {
        return Vec::new();
    }
    let mut b: usize = s.len();
    while b > a && char_is_whitespace(s[b - 1])
        invariant
            a < s@.len(),
            !is_whitespace(s@[a as int]),
            a <= b <= s@.len(),
            forall|k: int| b <= k < s@.len() ==> is_whitespace(#[trigger] s@[k]),
        decreases b,
    {
        b -= 1;
    }
    proof {
        trailing_ws_is(s@, (s@.len() - b) as nat);
    }
    let mut out: Vec<char> = Vec::new();
    let mut k: usize = a;
    while k < b
        invariant
            a <= k <= b <= s@.len(),
            out@ == s@.subrange(a as int, k as int),
        decreases b - k,
    {
        out.push(s[k]);
        k += 1;
        proof {
            assert(out@ =~= s@.subrange(a as int, k as int));
        }
    }
    out
}

/// Splits on newlines: the pieces between them, without a last empty piece
/// when the text ends with a newline (as `str::lines` does for text without
/// carriage returns).
pub open spec fn split_lines(s: Seq<char>) -> Seq<Seq<char>> {
    let st = lines_state(s);
    if st.1.len() > 0 { st.0.push(st.1) } else { st.0 }
}

/// Finished lines and the line in progress after reading `s`.
pub open spec fn lines_state(s: Seq<char>) -> (Seq<Seq<char>>, Seq<char>)
    decreases s.len(),
{
    if s.len() == 0 {
        (seq![], seq![])
    } else {
        let st = lines_state(s.drop_last());
        if s.last() == '\n' { (st.0.push(st.1), seq![]) } else { (st.0, st.1.push(s.last())) }
    }
}

/// Splits on newlines.
pub fn split_lines_exec(s: &[char]) -> (r: Vec<Vec<char>>)
    ensures
        r@.map_values(|l: Vec<char>| l@) == split_lines(s@),
{
    let mut done: Vec<Vec<char>> = Vec::new();
    let mut cur: Vec<char> = Vec::new();
    let mut i: usize = 0;
    while i < s.len()
        invariant
            i <= s@.len(),
            (done@.map_values(|l: Vec<char>| l@), cur@) == lines_state(s@.take(i as int)),
        decreases s@.len() - i,
    {
        proof {
            assert(s@.take(i + 1).drop_last() =~= s@.take(i as int));
        }
        if s[i] == '\n' {
            let finished = cur;
            done.push(finished);
            cur = Vec::new();
            proof {
                assert(done@.map_values(|l: Vec<char>| l@) =~= lines_state(s@.take(i + 1)).0);
                assert(cur@ =~= lines_state(s@.take(i + 1)).1);
            }
        } else {
            cur.push(s[i]);
        }
        i += 1;
    }
    proof {
        assert(s@.take(s@.len() as int) =~= s@);
    }
    if cur.len() > 0 {
        done.push(cur);
        proof {
            assert(done@.map_values(|l: Vec<char>| l@) =~= split_lines(s@));
        }
    }
    done
}

/// The part of `s` before its last `sep` (empty when `sep` does not occur).
pub open spec fn before_last(s: Seq<char>, sep: char) -> Seq<char> {
    let tail = after_last(s, sep);
    if tail.len() < s.len() { s.take(s.len() - tail.len() - 1) } else { seq![] }
}

/// How many times `c` occurs in `s`.
pub open spec fn count_char(s: Seq<char>, c: char) -> nat
    decreases s.len(),
{
    if s.len() == 0 { 0 } else { count_char(s.drop_last(), c) + if s.last() == c { 1nat } else { 0nat } }
}

proof fn after_last_is_suffix(s: Seq<char>, sep: char)
    ensures
        after_last(s, sep).len() <= s.len(),
        after_last(s, sep) == s.subrange(s.len() - after_last(s, sep).len(), s.len() as int),
        after_last(s, sep).len() < s.len() ==> s[s.len() - after_last(s, sep).len() - 1] == sep,
        after_last(s, sep).len() == s.len() <==> count_char(s, sep) == 0,
        !after_last(s, sep).contains(sep),
    decreases s.len(),
{
    if s.len() > 0 {
        after_last_is_suffix(s.drop_last(), sep);
        if s.last() != sep {
            let t = after_last(s.drop_last(), sep);
            assert(after_last(s, sep) =~= s.subrange(s.len() - after_last(s, sep).len(), s.len() as int));
            if after_last(s, sep).len() < s.len() {
                assert(s[s.len() - after_last(s, sep).len() - 1] == s.drop_last()[s.drop_last().len() - t.len() - 1]);
            }
            if t.push(s.last()).contains(sep) {
                let k = choose|k: int| 0 <= k < t.push(s.last()).len() && t.push(s.last())[k] == sep;
                assert(t[k] == sep);
            }
        } else {
            assert(after_last(s, sep) =~= s.subrange(s.len() as int, s.len() as int));
        }
    } else {
        assert(after_last(s, sep) =~= s.subrange(0, 0));
    }
}

/// The part of `s` before its last `sep`.
pub fn before_last_char(s: &[char], sep: char) -> (r: Vec<char>)
    ensures
        r@ == before_last(s@, sep),
{
    let tail = after_last_char(s, sep);
    proof {
        after_last_is_suffix(s@, sep);
    }
    let mut out: Vec<char> = Vec::new();
    if tail.len() < s.len() {
        let n = s.len() - tail.len() - 1;
        let mut i: usize = 0;
        while i < n
            invariant
                n <= s@.len(),
                i <= n,
                out@ == s@.take(i as int),
            decreases n - i,
        {
            out.push(s[i]);
            i += 1;
            proof {
                assert(out@ =~= s@.take(i as int));
            }
        }
    }
    proof {
        if tail@.len() >= s@.len() {
            assert(out@ =~= Seq::<char>::empty());
        }
    }
    out
}

/// `c` occurs in `s` at least twice.
pub fn has_two(s: &[char], c: char) -> (r: bool)
    ensures
        r == (count_char(s@, c) >= 2),
{
    let mut n: usize = 0;
    let mut i: usize = 0;
    while i < s.len()
        invariant
            i <= s@.len(),
            n == count_char(s@.take(i as int), c),
            n <= i,
        decreases s@.len() - i,
    {
        proof {
            assert(s@.take(i + 1).drop_last() =~= s@.take(i as int));
        }
        if s[i] == c {
            n += 1;
        }
        i += 1;
    }
    proof {
        assert(s@.take(s@.len() as int) =~= s@);
    }
    n >= 2
}

/// Number of leading copies of `c`.
pub open spec fn leading_c(s: Seq<char>, c: char) -> nat
    decreases s.len(),
{
    if s.len() > 0 && s[0] == c { 1 + leading_c(s.drop_first(), c) } else { 0 }
}

/// Number of trailing copies of `c`.
pub open spec fn trailing_c(s: Seq<char>, c: char) -> nat
    decreases s.len(),
{
    if s.len() > 0 && s.last() == c { 1 + trailing_c(s.drop_last(), c) } else { 0 }
}

/// `s` without its leading and trailing copies of `c`, as `str::trim_matches(c)` gives it.
pub open spec fn trim_c(s: Seq<char>, c: char) -> Seq<char> {
    let a = leading_c(s, c);
    if a == s.len() { seq![] } else { s.subrange(a as int, s.len() - trailing_c(s, c)) }
}

proof fn leading_c_bound(s: Seq<char>, c: char)
    ensures
        leading_c(s, c) <= s.len(),
        forall|k: int| 0 <= k < leading_c(s, c) ==> #[trigger] s[k] == c,
        leading_c(s, c) < s.len() ==> s[leading_c(s, c) as int] != c,
    decreases s.len(),
{
    if s.len() > 0 && s[0] == c {
        leading_c_bound(s.drop_first(), c);
        assert forall|k: int| 0 <= k < leading_c(s, c) implies #[trigger] s[k] == c by {
            if k > 0 {
                assert(s[k] == s.drop_first()[k - 1]);
            }
        }
    }
}

proof fn trailing_c_bound(s: Seq<char>, c: char)
    ensures
        trailing_c(s, c) <= s.len(),
        forall|k: int| s.len() - trailing_c(s, c) <= k < s.len() ==> #[trigger] s[k] == c,
        trailing_c(s, c) < s.len() ==> s[s.len() - trailing_c(s, c) - 1] != c,
    decreases s.len(),
{
    if s.len() > 0 && s.last() == c {
        trailing_c_bound(s.drop_last(), c);
        assert forall|k: int| s.len() - trailing_c(s, c) <= k < s.len() implies #[trigger] s[k] == c by {
            if k < s.len() - 1 {
                assert(s[k] == s.drop_last()[k]);
            }
        }
    }
}

proof fn leading_c_is(s: Seq<char>, c: char, n: nat)
    requires
        n <= s.len(),
        forall|k: int| 0 <= k < n ==> #[trigger] s[k] == c,
        n < s.len() ==> s[n as int] != c,
    ensures
        leading_c(s, c) == n,
    decreases n,
{
    if n > 0 {
        assert forall|k: int| 0 <= k < n - 1 implies #[trigger] s.drop_first()[k] == c by {
            assert(s.drop_first()[k] == s[k + 1]);
        }
        if n - 1 < s.drop_first().len() {
            assert(s.drop_first()[n - 1] == s[n as int]);
        }
        leading_c_is(s.drop_first(), c, (n - 1) as nat);
    }
}

proof fn trailing_c_is(s: Seq<char>, c: char, n: nat)
    requires
        n <= s.len(),
        forall|k: int| s.len() - n <= k < s.len() ==> #[trigger] s[k] == c,
        n < s.len() ==> s[s.len() - n - 1] != c,
    ensures
        trailing_c(s, c) == n,
    decreases n,
{
    if n > 0 {
        let t = s.drop_last();
        assert forall|k: int| t.len() - (n - 1) <= k < t.len() implies #[trigger] t[k] == c by {
            assert(t[k] == s[k]);
        }
        if n - 1 < t.len() {
            assert(t[t.len() - (n - 1) - 1] == s[s.len() - n - 1]);
        }
        trailing_c_is(t, c, (n - 1) as nat);
    }
}

/// `s` without leading and trailing copies of `c`.
pub fn trim_char(s: &[char], c: char) -> (r: Vec<char>)
    ensures
        r@ == trim_c(s@, c),
{
    let mut a: usize = 0;
    while a < s.len() && s[a] == c
        invariant
            a <= s@.len(),
            forall|k: int| 0 <= k < a ==> #[trigger] s@[k] == c,
        decreases s@.len() - a,
    {
        a += 1;
    }
    proof {
        leading_c_is(s@, c, a as nat);
    }
    if a == s.len() {
        return Vec::new();
    }
    let mut b: usize = s.len();
    while b > a && s[b - 1] == c
        invariant
            a < s@.len(),
            s@[a as int] != c,
            a <= b <= s@.len(),
            forall|k: int| b <= k < s@.len() ==> #[trigger] s@[k] == c,
        decreases b,
    {
        b -= 1;
    }
    proof {
        trailing_c_is(s@, c, (s@.len() - b) as nat);
    }
    let mut out: Vec<char> = Vec::new();
    let mut k: usize = a;
    while k < b
        invariant
            a <= k <= b <= s@.len(),
            out@ == s@.subrange(a as int, k as int),
        decreases b - k,
    {
        out.push(s[k]);
        k += 1;
        proof {
            assert(out@ =~= s@.subrange(a as int, k as int));
        }
    }
    out
}

/// Finished pieces and the piece in progress after reading `s`, splitting
/// at each `sep`.
pub open spec fn split_state<T>(s: Seq<T>, sep: T) -> (Seq<Seq<T>>, Seq<T>)
    decreases s.len(),
{
    if s.len() == 0 {
        (seq![], seq![])
    } else {
        let st = split_state(s.drop_last(), sep);
        if s.last() == sep { (st.0.push(st.1), seq![]) } else { (st.0, st.1.push(s.last())) }
    }
}

/// The pieces between the separators, as `split(sep)` gives them (an empty
/// text gives one empty piece).
pub open spec fn split_all<T>(s: Seq<T>, sep: T) -> Seq<Seq<T>> {
    let st = split_state(s, sep);
    st.0.push(st.1)
}

/// The pieces of a text between the separators.
pub fn split_chars(s: &[char], sep: char) -> (r: Vec<Vec<char>>)
    ensures
        r@.map_values(|l: Vec<char>| l@) == split_all(s@, sep),
{
    let mut done: Vec<Vec<char>> = Vec::new();
    let mut cur: Vec<char> = Vec::new();
    let mut i: usize = 0;
    while i < s.len()
        invariant
            i <= s@.len(),
            (done@.map_values(|l: Vec<char>| l@), cur@) == split_state(s@.take(i as int), sep),
        decreases s@.len() - i,
    {
        proof {
            assert(s@.take(i + 1).drop_last() =~= s@.take(i as int));
        }
        if s[i] == sep {
            let finished = cur;
            done.push(finished);
            cur = Vec::new();
            proof {
                assert(done@.map_values(|l: Vec<char>| l@) =~= split_state(s@.take(i + 1), sep).0);
                assert(cur@ =~= split_state(s@.take(i + 1), sep).1);
            }
        } else {
            cur.push(s[i]);
        }
        i += 1;
    }
    proof {
        assert(s@.take(s@.len() as int) =~= s@);
    }
    done.push(cur);
    proof {
        assert(done@.map_values(|l: Vec<char>| l@) =~= split_all(s@, sep));
    }
    done
}

/// The pieces of a byte string between the separators, as ranges.
pub fn split_bytes(s: &[u8], sep: u8) -> (r: Vec<(usize, usize)>)
    ensures
        r@.len() == split_all(s@, sep).len(),
        forall|k: int| 0 <= k < r@.len() ==> (#[trigger] r@[k]).0 <= r@[k].1 <= s@.len()
            && s@.subrange(r@[k].0 as int, r@[k].1 as int) == split_all(s@, sep)[k],
{
    let mut done: Vec<(usize, usize)> = Vec::new();
    let mut start: usize = 0;
    let mut i: usize = 0;
    let ghost mut pieces: Seq<Seq<u8>> = seq![];
    while i < s.len()
        invariant
            i <= s@.len(),
            start <= i,
            (pieces, s@.subrange(start as int, i as int)) == split_state(s@.take(i as int), sep),
            done@.len() == pieces.len(),
            forall|k: int| 0 <= k < done@.len() ==> (#[trigger] done@[k]).0 <= done@[k].1 <= s@.len()
                && s@.subrange(done@[k].0 as int, done@[k].1 as int) == pieces[k],
        decreases s@.len() - i,
    {
        proof {
            assert(s@.take(i + 1).drop_last() =~= s@.take(i as int));
        }
        if s[i] == sep {
            done.push((start, i));
            proof {
                pieces = pieces.push(s@.subrange(start as int, i as int));
                assert(s@.subrange(i + 1, i + 1) =~= Seq::<u8>::empty());
            }
            start = i + 1;
        } else {
            proof {
                assert(s@.subrange(start as int, i + 1) =~= s@.subrange(start as int, i as int).push(s@[i as int]));
            }
        }
        i += 1;
    }
    proof {
        assert(s@.take(s@.len() as int) =~= s@);
    }
    done.push((start, s.len()));
    proof {
        pieces = pieces.push(s@.subrange(start as int, s@.len() as int));
        assert(pieces =~= split_all(s@, sep));
    }
    done
}

/// Number of bytes of the UTF-8 encoding of a character.
pub open spec fn utf8_width(c: char) -> nat {
    vstd::utf8::encode_scalar(c as u32).len()
}

fn char_utf8_width(c: char) -> (r: usize)
    ensures
        r == utf8_width(c),
        1 <= r <= 4,
{
    proof {
        vstd::utf8::char_is_scalar(c);
    }
    let u = c as u32;
    if u <= 0x7f {
        1
    } else if u <= 0x7ff {
        2
    } else if u <= 0xffff {
        3
    } else {
        4
    }
}

/// The UTF-8 encoding of the characters is `n` bytes long (what `str::len`
/// compares).
pub fn utf8_len_is(s: &[char], n: usize) -> (r: bool)
    ensures
        r == (vstd::utf8::encode_utf8(s@).len() == n),
{
    let mut acc: usize = 0;
    let mut i: usize = s.len();
    proof {
        assert(s@.skip(s@.len() as int) =~= Seq::<char>::empty());
    }
    while i > 0
        invariant
            i <= s@.len(),
            acc <= n,
            acc == vstd::utf8::encode_utf8(s@.skip(i as int)).len(),
        decreases i,
    {
        let w = char_utf8_width(s[i - 1]);
        proof {
            assert(s@.skip(i - 1).drop_first() =~= s@.skip(i as int));
            assert(s@.skip(i - 1)[0] == s@[i - 1]);
        }
        if w > n - acc {
            proof {
                encode_len_at_least(s@, (i - 1) as nat);
            }
            return false;
        }
        acc = acc + w;
        i -= 1;
    }
    proof {
        assert(s@.skip(0) =~= s@);
    }
    acc == n
}

proof fn encode_len_at_least(s: Seq<char>, i: nat)
    requires
        i <= s.len(),
    ensures
        vstd::utf8::encode_utf8(s).len() >= vstd::utf8::encode_utf8(s.skip(i as int)).len(),
    decreases i,
{
    if i > 0 {
        assert(s.skip(0) =~= s);
        encode_len_at_least(s, (i - 1) as nat);
        assert(s.skip(i - 1).drop_first() =~= s.skip(i as int));
    } else {
        assert(s.skip(0) =~= s);
    }
}

} // verus!
