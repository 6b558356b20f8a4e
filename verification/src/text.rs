use strip_ansi_escapes;
use vstd::prelude::*;
use vstd::utf8::{decode_utf8, valid_utf8};

verus! {

/// The decimal digit character for `d < 10`.
pub open spec fn digit_char(d: nat) -> char {
    ((48 + d) as u8) as char
}

/// The decimal representation of `n`, without leading zeros.
pub open spec fn decimal(n: nat) -> Seq<char>
    decreases n,
{
    if n < 10 {
        seq![digit_char(n)]
    } else {
        decimal(n / 10).push(digit_char(n % 10))
    }
}

/// What `String::from_utf8_lossy` makes of `bytes`: each maximal invalid
/// sequence becomes U+FFFD.
pub uninterp spec fn utf8_lossy(bytes: Seq<u8>) -> Seq<char>;

/// What `strip_ansi_escapes::strip_str` leaves of `text`.
pub uninterp spec fn ansi_stripped(text: Seq<char>) -> Seq<char>;

/// `u64::to_string`. Claimed, as std documents for integers: the decimal
/// representation, without sign or leading zeros.
#[verifier::external_body]
pub(crate) fn u64_to_string(n: u64) -> (res: String)
    ensures
        res@ == decimal(n as nat),
{
    n.to_string()
}

/// `String::push`. Claimed: `c` is appended.
#[verifier::external_body]
pub(crate) fn push_char(s: &mut String, c: char)
    ensures
        final(s)@ == old(s)@.push(c),
{
    s.push(c);
}

/// `String::from_utf8_lossy`. Claimed: the result is the named lossy
/// decoding of `bytes`, and is the plain decoding where `bytes` is valid
/// UTF-8, as std documents.
#[verifier::external_body]
pub(crate) fn from_utf8_lossy(bytes: &[u8]) -> (res: String)
    ensures
        res@ == utf8_lossy(bytes@),
        valid_utf8(bytes@) ==> res@ == decode_utf8(bytes@),
{
    String::from_utf8_lossy(bytes).to_string()
}

/// `std::str::from_utf8`. Claimed, as std documents: it succeeds exactly on
/// valid UTF-8, and then gives the decoded characters.
#[verifier::external_body]
pub(crate) fn from_utf8(bytes: &[u8]) -> (res: Option<String>)
    ensures
        res is Some <==> valid_utf8(bytes@),
        res matches Some(s) ==> s@ == decode_utf8(bytes@),
{
    match std::str::from_utf8(bytes) {
        Ok(s) => Some(s.to_string()),
        Err(_) => None,
    }
}

/// `strip_ansi_escapes::strip_str`. Claimed: the result is the named
/// stripping of `text`; what the stripping does is left unsaid.
#[verifier::external_body]
pub(crate) fn strip_ansi(text: &str) -> (res: String)
    ensures
        res@ == ansi_stripped(text@),
{
    strip_ansi_escapes::strip_str(text)
}

/// `s` with `suffix` appended.
pub fn concat(s: String, suffix: &str) -> (res: String)
    ensures
        res@ == s@ + suffix@,
{
    let mut s = s;
    s.append(suffix);
    s
}

/// What `Path::file_name` gives for `path`: its last component, unless the
/// path ends in `..` or has no component.
pub uninterp spec fn file_name_of(path: Seq<char>) -> Option<Seq<char>>;

/// What `Path::join` (as `PathBuf::push`) gives for `base` and `part`,
/// displayed.
pub uninterp spec fn path_joined(base: Seq<char>, part: Seq<char>) -> Seq<char>;

/// `Path::file_name`, converted to text. Claimed: the named result.
#[verifier::external_body]
pub(crate) fn file_name(path: &str) -> (res: Option<String>)
    ensures
        opt_text(res) == file_name_of(path@),
{
    std::path::Path::new(path).file_name().map(|n| n.to_string_lossy().to_string())
}

/// `Path::join`, displayed. Claimed: the named result.
#[verifier::external_body]
pub(crate) fn path_join(base: &str, part: &str) -> (res: String)
    ensures
        res@ == path_joined(base@, part@),
{
    std::path::Path::new(base).join(part).display().to_string()
}

/// What `Path::ends_with` gives for `path` and `child`: whether `child`
/// is a suffix of `path`, whole components compared.
pub uninterp spec fn path_ends_with_components(path: Seq<char>, child: Seq<char>) -> bool;

/// What `Path::parent` gives for `path`, displayed: the path without its
/// last component, none where the path ends in a root or is empty.
pub uninterp spec fn parent_of(path: Seq<char>) -> Option<Seq<char>>;

/// `Path::ends_with`. Claimed: the named result.
#[verifier::external_body]
pub(crate) fn path_ends_with(path: &str, child: &str) -> (res: bool)
    ensures
        res == path_ends_with_components(path@, child@),
{
    std::path::Path::new(path).ends_with(child)
}

/// `Path::parent`, displayed. Claimed: the named result.
#[verifier::external_body]
pub(crate) fn path_parent(path: &str) -> (res: Option<String>)
    ensures
        opt_text(res) == parent_of(path@),
{
    std::path::Path::new(path).parent().map(|p| p.display().to_string())
}

/// The model of an optional string.
pub open spec fn opt_text(s: Option<String>) -> Option<Seq<char>> {
    match s {
        Some(s) => Some(s@),
        None => None,
    }
}

} // verus!
