//! The calls this library makes into std where Verus has no specification
//! of its own. Each item states what it relies on.
use vstd::prelude::*;

verus! {

#[verifier::external_type_specification]
#[verifier::external_body]
pub struct ExInstant(std::time::Instant);

/// What `String::from_utf8_lossy` makes of a byte sequence.
pub uninterp spec fn lossy_utf8(bytes: Seq<u8>) -> Seq<char>;

/// What `Path::file_stem` gives for a path, when it is valid UTF-8.
pub uninterp spec fn path_stem(path: Seq<char>) -> Option<Seq<char>>;

/// Whether `char::is_alphanumeric` holds of a character.
pub uninterp spec fn alphanumeric(c: char) -> bool;

pub open spec fn ascii_alphanumeric(c: char) -> bool {
    ('a' <= c && c <= 'z') || ('A' <= c && c <= 'Z') || ('0' <= c && c <= '9')
}

/// Relies on String::from_utf8_lossy: invalid sequences become U+FFFD, and
/// valid UTF-8 (so any run of ASCII bytes) decodes to its own characters.
#[verifier::external_body]
pub(crate) fn utf8_lossy(bytes: &[u8]) -> (r: String)
    ensures
        r@ == lossy_utf8(bytes@),
        (forall|i: int| 0 <= i < bytes@.len() ==> bytes@[i] < 128) ==> r@ == bytes@.map_values(
            |b: u8| b as char,
        ),
{
    String::from_utf8_lossy(bytes).into_owned()
}

/// A bare file name whose last `.` stands at `d`: no separator or drive
/// mark, not starting with `.`.
pub open spec fn plain_name_with_dot(path: Seq<char>, d: int) -> bool {
    &&& 0 < d < path.len()
    &&& path[d] == '.'
    &&& path[0] != '.'
    &&& forall|i: int| 0 <= i < path.len() ==> path[i] != '/' && path[i] != '\\' && path[i] != ':'
    &&& forall|i: int| d < i < path.len() ==> path[i] != '.'
}

/// Relies on std::path::Path::file_stem: the final component of the path
/// without its extension; for a bare file name that does not start with `.`,
/// the part before its last `.`.
#[verifier::external_body]
pub(crate) fn file_stem(path: &str) -> (r: Option<String>)
    ensures
        match r {
            Some(s) => path_stem(path@) == Some(s@),
            None => path_stem(path@) is None,
        },
        forall|d: int|
            plain_name_with_dot(path@, d) ==> r is Some && r->Some_0@ == path@.subrange(0, d),
{
    match std::path::Path::new(path).file_stem() {
        Some(stem) => match stem.to_str() {
            Some(s) => Some(s.to_string()),
            None => None,
        },
        None => None,
    }
}

/// Relies on char::is_alphanumeric: alphabetic or numeric in Unicode terms,
/// which among ASCII characters are the letters and digits.
#[verifier::external_body]
pub(crate) fn is_alphanumeric(c: char) -> (r: bool)
    ensures
        r == alphanumeric(c),
        (c as u32) < 128 ==> (r == ascii_alphanumeric(c)),
{
    c.is_alphanumeric()
}

/// Relies on std::time::Instant::now: a reading of the monotonic clock.
#[verifier::external_body]
pub(crate) fn clock_now() -> (r: std::time::Instant) {
    std::time::Instant::now()
}

/// Relies on std::time::Instant::elapsed and Duration::as_micros: the whole
/// microseconds since `start`.
#[verifier::external_body]
pub(crate) fn micros_since(start: &std::time::Instant) -> (r: u128) {
    start.elapsed().as_micros()
}

} // verus!
