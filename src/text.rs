//! Character-level helpers over std's string operations.
use vstd::prelude::*;
use vstd::utf8::{decode_utf8, valid_utf8};

verus! {

/// What `str::to_lowercase` returns for a string.
pub uninterp spec fn lower_of(s: Seq<char>) -> Seq<char>;

/// What `String::from_utf8_lossy` returns for a byte sequence.
pub uninterp spec fn lossy_utf8_of(b: Seq<u8>) -> Seq<char>;

/// Whether `char::is_whitespace` holds of a character (Unicode `White_Space`).
pub uninterp spec fn white_space(c: char) -> bool;

/// Relies on `str::to_lowercase`: the lower-case mapping depends on the
/// characters alone, and the empty string stays empty.
#[verifier::external_body]
pub(crate) fn to_lower(s: &str) -> (r: String)
    ensures
        r@ == lower_of(s@),
        s@.len() == 0 ==> r@.len() == 0,
{
    s.to_lowercase()
}

/// Relies on `String::from_utf8_lossy`: valid UTF-8 decodes to exactly the
/// characters it encodes; other input gets replacement characters.
#[verifier::external_body]
pub(crate) fn decode_lossy(b: &[u8]) -> (r: String)
    ensures
        r@ == lossy_utf8_of(b@),
        valid_utf8(b@) ==> r@ == decode_utf8(b@),
{
    String::from_utf8_lossy(b).into_owned()
}

/// Space, tab, line feed and carriage return.
pub open spec fn ascii_space(c: char) -> bool {
    c == ' ' || c == '\t' || c == '\n' || c == '\r'
}

/// Relies on `char::is_whitespace`: Unicode `White_Space`, which includes
/// space, tab, line feed and carriage return.
#[verifier::external_body]
fn is_white(c: char) -> (r: bool)
    ensures
        r == white_space(c),
        ascii_space(c) ==> r,
{
    c.is_whitespace()
}

/// Relies on `String::push`: appends one character.
#[verifier::external_body]
fn push_char(s: &mut String, c: char)
    ensures
        final(s)@ == old(s)@.push(c),
{
    s.push(c)
}

/// Whether a string is empty once leading and trailing whitespace is trimmed,
/// that is, whether every character is whitespace.
pub open spec fn blank(s: Seq<char>) -> bool {
    forall|i: int| 0 <= i < s.len() ==> white_space(#[trigger] s[i])
}

/// Whether the string holds nothing but whitespace.
pub fn is_blank(s: &str) -> (r: bool)
    ensures
        r == blank(s@),
        (forall|i: int| 0 <= i < s@.len() ==> ascii_space(#[trigger] s@[i])) ==> r,
{
    let mut all: bool = true;
    for c in it: s.chars()
        invariant
            it.seq() == s@,
            all == (forall|i: int| 0 <= i < it.index() ==> white_space(#[trigger] s@[i])),
            forall|i: int| 0 <= i < it.index() && ascii_space(#[trigger] s@[i]) ==> white_space(s@[i]),
    {
        if !is_white(c) {
            all = false;
        }
    }
    all
}

/// The first character of a string, if any.
pub fn first_char(s: &str) -> (r: Option<char>)
    ensures
        s@.len() == 0 ==> r is None,
        s@.len() > 0 ==> r == Some(s@[0]),
{
    let mut it = s.chars();
    it.next()
}

/// Whether a string has more than one character.
pub fn longer_than_one(s: &str) -> (r: bool)
    ensures
        r == (s@.len() > 1),
{
    let mut it = s.chars();
    let _ = it.next();
    let second = it.next();
    second.is_some()
}

/// A string slice copied into a `String`, with each backslash turned into a
/// forward slash.
pub open spec fn forward_slashes(s: Seq<char>) -> Seq<char> {
    s.map_values(|c: char| if c == '\\' { '/' } else { c })
}

/// Rewrites path separators to forward slashes.
pub fn normalize_separators(s: &str) -> (r: String)
    ensures
        r@ == forward_slashes(s@),
{
    let mut r = String::new();
    for c in it: s.chars()
        invariant
            it.seq() == s@,
            r@ == forward_slashes(s@.take(it.index() as int)),
    {
        proof {
            assert(s@.take(it.index() + 1) == s@.take(it.index() as int).push(s@[it.index() as int]));
        }
        if c == '\\' {
            push_char(&mut r, '/');
        } else {
            push_char(&mut r, c);
        }
    }
    assert(s@.take(s@.len() as int) == s@);
    r
}

} // verus!
