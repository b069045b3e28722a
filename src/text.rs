use vstd::prelude::*;
use vstd::string::*;
use vstd::utf8::{decode_utf8, valid_utf8};

use crate::error::{Error, Result};

verus! {

/// A name can reach the native layer when it holds no terminator character.
pub open spec fn valid_name(s: Seq<char>) -> bool {
    !s.contains('\0')
}

/// Checks that `name` can be handed to the native layer unchanged: one with
/// an embedded terminator would be silently cut short there.
pub fn check_name(name: &str) -> (r: Result<()>)
    ensures
        r is Ok <==> valid_name(name@),
        r is Err ==> r == Err::<(), Error>(Error::InvalidName),
{
    let n = name.unicode_len();
    let mut i: usize = 0;
    while i < n
        invariant
            0 <= i <= n,
            n == name@.len(),
            forall|k: int| 0 <= k < i ==> name@[k] != '\0',
        decreases n - i,
    {
        if name.get_char(i) == '\0' {
            return Err(Error::InvalidName);
        }
        i = i + 1;
    }
    Ok(())
}

/// `c` is the letter `lower` in either case, or equals `lower`.
pub open spec fn same_letter_ci(c: char, lower: char) -> bool {
    c == lower || ('a' <= lower && lower <= 'z' && c as u32 + 32 == lower as u32)
}

/// `s` ends with `suffix`, ASCII letters compared without regard to case.
pub open spec fn has_suffix_ci(s: Seq<char>, suffix: Seq<char>) -> bool {
    &&& s.len() >= suffix.len()
    &&& forall|i: int|
        0 <= i < suffix.len() ==> same_letter_ci(#[trigger] s[s.len() - suffix.len() + i], suffix[i])
}

fn ends_with_ci(s: &str, suffix: &[char]) -> (r: bool)
    ensures
        r == has_suffix_ci(s@, suffix@),
{
    let n = s.unicode_len();
    let m = suffix.len();
    if n < m {
        return false;
    }
    let mut i: usize = 0;
    while i < m
        invariant
            0 <= i <= m,
            m == suffix@.len(),
            n == s@.len(),
            n >= m,
            forall|k: int| 0 <= k < i ==> same_letter_ci(#[trigger] s@[n - m + k], suffix@[k]),
        decreases m - i,
    {
        let c = s.get_char(n - m + i);
        let l = suffix[i];
        if !(c == l || ('a' <= l && l <= 'z' && c as u32 + 32 == l as u32)) {
            return false;
        }
        i = i + 1;
    }
    true
}

/// The problem file formats that are read and written by file name.
#[derive(Debug, Clone, Copy, PartialEq, Eq, Structural)]
pub enum FileFormat {
    Mps,
    Lp,
}

/// The format a file name selects: by its suffix alone, `.mps` or `.lp` in
/// any case; a name that cannot reach the native layer is refused first.
pub open spec fn spec_file_format(s: Seq<char>) -> Result<FileFormat> {
    if !valid_name(s) {
        Err(Error::InvalidName)
    } else if has_suffix_ci(s, seq!['.', 'm', 'p', 's']) {
        Ok(FileFormat::Mps)
    } else if has_suffix_ci(s, seq!['.', 'l', 'p']) {
        Ok(FileFormat::Lp)
    } else {
        Err(Error::UnsupportedFormat)
    }
}

/// Picks the native reader or writer for `filename` by its suffix, without
/// looking at any content.
pub fn file_format(filename: &str) -> (r: Result<FileFormat>)
    ensures
        r == spec_file_format(filename@),
{
    check_name(filename)?;
    let mps = ['.', 'm', 'p', 's'];
    let lp = ['.', 'l', 'p'];
    assert(mps@ =~= seq!['.', 'm', 'p', 's']);
    assert(lp@ =~= seq!['.', 'l', 'p']);
    if ends_with_ci(filename, mps.as_slice()) {
        Ok(FileFormat::Mps)
    } else if ends_with_ci(filename, lp.as_slice()) {
        Ok(FileFormat::Lp)
    } else {
        Err(Error::UnsupportedFormat)
    }
}

/// Relies on `std::str::from_utf8`: it accepts exactly the byte strings that
/// are valid UTF-8, and then reads them as the characters they encode.
#[verifier::external_body]
fn decode_utf8_bytes(bytes: &[u8]) -> (r: Option<String>)
    ensures
        r is Some <==> valid_utf8(bytes@),
        r matches Some(s) ==> s@ == decode_utf8(bytes@),
{
    std::str::from_utf8(bytes).ok().map(|s| s.to_string())
}

/// The text of a native log message, or `None` when its bytes are not valid
/// UTF-8: such a message is dropped, not delivered.
pub fn log_text(bytes: &[u8]) -> (r: Option<String>)
    ensures
        r is Some <==> valid_utf8(bytes@),
        r matches Some(s) ==> s@ == decode_utf8(bytes@),
{
    decode_utf8_bytes(bytes)
}

} // verus!
