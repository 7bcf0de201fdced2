use vstd::prelude::*;
use vstd::string::StringExecFns;

verus! {

/// The characters that decoding `bytes` as UTF-8 with lossy replacement
/// yields; a function of the bytes alone.
pub uninterp spec fn lossy_of(bytes: Seq<u8>) -> Seq<char>;

/// Relies on String::from_utf8_lossy: decodes the bytes as UTF-8, turning
/// each malformed sequence into the replacement character; the result is a
/// function of the bytes alone, and no bytes decode to nothing.
#[verifier::external_body]
pub(crate) fn decode_lossy(bytes: &[u8]) -> (r: String)
    ensures
        r@ == lossy_of(bytes@),
        bytes@.len() == 0 ==> r@.len() == 0,
{
    String::from_utf8_lossy(bytes).into_owned()
}

/// The characters of `s` with leading and trailing whitespace removed; a
/// function of the characters alone.
pub uninterp spec fn trim_of(s: Seq<char>) -> Seq<char>;

/// Relies on str::trim: returns the string without leading and trailing
/// whitespace; the result is a function of the characters alone, and an
/// empty string stays empty.
#[verifier::external_body]
pub(crate) fn trim_owned(s: &str) -> (r: String)
    ensures
        r@ == trim_of(s@),
        s@.len() == 0 ==> r@.len() == 0,
{
    s.trim().to_owned()
}

/// `s` wrapped in single quotes.
pub open spec fn quoted(s: Seq<char>) -> Seq<char> {
    "'"@ + s + "'"@
}

/// Wraps `s` in single quotes.
pub fn quote_line(s: &str) -> (r: String)
    ensures
        r@ == quoted(s@),
{
    let mut out: String = "'".to_owned();
    out.append(s);
    out.append("'");
    out
}

} // verus!
