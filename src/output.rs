//! Turning what the status command printed into the text the panel shows.
use vstd::prelude::*;

verus! {

/// Text shown when the status command could not be run.
pub const ERROR_TEXT: &'static str = "Error";

/// Whether `c` has the Unicode `White_Space` property, the set of characters
/// that `str::trim` removes.
pub open spec fn is_white_space(c: char) -> bool {
    let u = c as u32;
    ||| 0x09 <= u <= 0x0d
    ||| u == 0x20
    ||| u == 0x85
    ||| u == 0xa0
    ||| u == 0x1680
    ||| 0x2000 <= u <= 0x200a
    ||| u == 0x2028
    ||| u == 0x2029
    ||| u == 0x202f
    ||| u == 0x205f
    ||| u == 0x3000
}

/// `s` without its leading white space.
pub open spec fn trim_start(s: Seq<char>) -> Seq<char>
    decreases s.len(),
{
    if s.len() > 0 && is_white_space(s[0]) {
        trim_start(s.drop_first())
    } else {
        s
    }
}

/// `s` without its trailing white space.
pub open spec fn trim_end(s: Seq<char>) -> Seq<char>
    decreases s.len(),
{
    if s.len() > 0 && is_white_space(s.last()) {
        trim_end(s.drop_last())
    } else {
        s
    }
}

/// `s` without its leading and trailing white space.
pub open spec fn trimmed(s: Seq<char>) -> Seq<char> {
    trim_end(trim_start(s))
}

/// The characters that `String::from_utf8_lossy` decodes from `b`: each
/// well-formed UTF-8 sequence becomes its character, each ill-formed one
/// U+FFFD.
pub uninterp spec fn lossy_text(b: Seq<u8>) -> Seq<char>;

/// Whether every byte of `b` is ASCII.
pub open spec fn is_ascii_bytes(b: Seq<u8>) -> bool {
    forall|i: int| 0 <= i < b.len() ==> b[i] < 128
}

/// The characters of an ASCII byte string, one for each byte.
pub open spec fn ascii_chars(b: Seq<u8>) -> Seq<char> {
    Seq::new(b.len(), |i: int| b[i] as char)
}

/// The text the panel shows after one run of the status command: the
/// trimmed, decoded standard output when the command ran (`Some`), and
/// `"Error"` when it could not be run (`None`).
pub open spec fn shown_text(stdout: Option<Seq<u8>>) -> Seq<char> {
    match stdout {
        Some(b) => trimmed(lossy_text(b)),
        None => "Error"@,
    }
}

/// Relies on `String::from_utf8_lossy`: the decoded characters, which for
/// ASCII input are the bytes themselves (valid UTF-8 is kept as it is).
#[verifier::external_body]
fn decode_lossy(b: &[u8]) -> (r: String)
    ensures
        r@ == lossy_text(b@),
        is_ascii_bytes(b@) ==> r@ == ascii_chars(b@),
{
    String::from_utf8_lossy(b).into_owned()
}

/// Relies on `str::trim`: `s` without leading and trailing characters that
/// have the `White_Space` property.
#[verifier::external_body]
fn trim_white_space(s: &str) -> (r: &str)
    ensures
        r@ == trimmed(s@),
{
    s.trim()
}

/// The panel text for decoded command output: `decoded` with leading and
/// trailing white space removed.
pub fn text_of_decoded(decoded: &str) -> (r: String)
    ensures
        r@ == trimmed(decoded@),
{
    trim_white_space(decoded).to_owned()
}

/// The panel text for one run of the status command, given its standard
/// output, or `None` where the command could not be run.
pub fn panel_text_from_output(stdout: Option<Vec<u8>>) -> (r: String)
    ensures
        r@ == shown_text(
            match stdout {
                Some(v) => Some(v@),
                None => None,
            },
        ),
{
    match stdout {
        Some(bytes) => {
            let decoded = decode_lossy(bytes.as_slice());
            text_of_decoded(decoded.as_str())
        },
        None => ERROR_TEXT.to_owned(),
    }
}

} // verus!
