//! Checks on an uploaded file before it is scanned: that a file was sent
//! and is not empty, and the name it is reported under.

use vstd::prelude::*;
use crate::text::{string_of, take_at_most, take_chars};

verus! {

/// The longest file name reported, in characters.
pub const MAX_FILE_NAME_CHARS: usize = 255;

/// The part of a path after its last `/` or `\`, or the whole path.
pub open spec fn last_path_part(s: Seq<char>) -> Seq<char>
    decreases s.len(),
{
    if s.len() == 0 {
        s
    } else if s.last() == '/' || s.last() == '\\' {
        seq![]
    } else {
        last_path_part(s.drop_last()).push(s.last())
    }
}

/// The name a file is reported under: the last part of the name it was
/// sent with (no directories), at most 255 characters.
pub fn clean_file_name(name: &str) -> (r: String)
    ensures
        r@ == take_at_most(last_path_part(name@), MAX_FILE_NAME_CHARS as nat),
{
    let cs = crate::text::chars_of(name);
    let mut part: Vec<char> = Vec::new();
    let mut i: usize = 0;
    while i < cs.len()
        invariant
            cs@ == name@,
            i <= cs@.len(),
            part@ == last_path_part(name@.take(i as int)),
        decreases cs@.len() - i,
    {
        proof {
            assert(name@.take(i as int + 1).drop_last() =~= name@.take(i as int));
        }
        let c = cs[i];
        if c == '/' || c == '\\' {
            part = Vec::new();
        } else {
            part.push(c);
        }
        i += 1;
    }
    proof {
        assert(name@.take(name@.len() as int) =~= name@);
    }
    let whole = string_of(part.as_slice());
    take_chars(whole.as_str(), MAX_FILE_NAME_CHARS)
}

/// Why an upload cannot be scanned: no file field, or an empty file.
pub open spec fn upload_problem_of(file: Option<Seq<u8>>) -> Option<Seq<char>> {
    match file {
        None => Some("Champ 'file' manquant"@),
        Some(b) => if b.len() == 0 { Some("Fichier vide"@) } else { None },
    }
}

/// The message refusing an upload, or `None` when it can be scanned.
pub fn upload_problem(file: Option<&[u8]>) -> (r: Option<&'static str>)
    ensures
        match r {
            Some(m) => upload_problem_of(match file { Some(b) => Some(b@), None => None }) == Some(m@),
            None => upload_problem_of(match file { Some(b) => Some(b@), None => None }) is None,
        },
{
    match file {
        None => Some("Champ 'file' manquant"),
        Some(b) => if b.len() == 0 { Some("Fichier vide") } else { None },
    }
}

} // verus!
