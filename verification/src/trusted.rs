//! Calls into outside crates and std functions that vstd does not specify.
//! Each item's contract is believed, not proved: its doc comment says what it claims.
use base64::engine::general_purpose;
use base64::Engine;
use vstd::prelude::*;
use vstd::utf8::{decode_utf8, encode_utf8, valid_utf8};

verus! {

/// The optional byte sequence of an optional vector.
pub open spec fn bytes_of(o: Option<Vec<u8>>) -> Option<Seq<u8>> {
    match o {
        Some(v) => Some(v@),
        None => None,
    }
}

/// What `URL_SAFE_NO_PAD.decode` gives for a text: `None` where it reports an error.
pub uninterp spec fn b64_url_nopad_decoded(data: Seq<char>) -> Option<Seq<u8>>;

/// What `URL_SAFE.decode` gives for a text: `None` where it reports an error.
pub uninterp spec fn b64_url_padded_decoded(data: Seq<char>) -> Option<Seq<u8>>;

/// The text that `URL_SAFE_NO_PAD.encode` gives for some bytes.
pub uninterp spec fn b64_url_nopad_encoded(data: Seq<u8>) -> Seq<char>;

/// The text that `STANDARD.encode` gives for some bytes.
pub uninterp spec fn b64_standard_encoded(data: Seq<u8>) -> Seq<char>;

/// The text that `String::from_utf8_lossy` gives for some bytes.
pub uninterp spec fn utf8_lossy(bytes: Seq<u8>) -> Seq<char>;

/// Calls `base64::engine::general_purpose::URL_SAFE_NO_PAD.decode` on the bytes of `data`;
/// an error becomes `None`. The result is named by `b64_url_nopad_decoded`, not spelled out.
#[verifier::external_body]
pub(crate) fn decode_url_safe_no_pad(data: &str) -> (r: Option<Vec<u8>>)
    ensures
        bytes_of(r) == b64_url_nopad_decoded(data@),
{
    general_purpose::URL_SAFE_NO_PAD.decode(data).ok()
}

/// Calls `base64::engine::general_purpose::URL_SAFE.decode` on the bytes of `data`;
/// an error becomes `None`. The result is named by `b64_url_padded_decoded`.
#[verifier::external_body]
pub(crate) fn decode_url_safe(data: &str) -> (r: Option<Vec<u8>>)
    ensures
        bytes_of(r) == b64_url_padded_decoded(data@),
{
    general_purpose::URL_SAFE.decode(data).ok()
}

/// Calls `base64::engine::general_purpose::URL_SAFE_NO_PAD.encode` on the UTF-8 bytes of `text`.
/// The result is named by `b64_url_nopad_encoded` of those bytes.
#[verifier::external_body]
pub(crate) fn encode_url_safe_no_pad(text: &str) -> (r: String)
    ensures
        r@ == b64_url_nopad_encoded(encode_utf8(text@)),
{
    general_purpose::URL_SAFE_NO_PAD.encode(text)
}

/// Calls `base64::engine::general_purpose::STANDARD.encode` on some bytes.
/// The result is named by `b64_standard_encoded`.
#[verifier::external_body]
pub fn encode_standard(data: &Vec<u8>) -> (r: String)
    ensures
        r@ == b64_standard_encoded(data@),
{
    general_purpose::STANDARD.encode(data)
}

/// What `STANDARD.decode` gives for a text: the bytes, or the text of its error.
pub uninterp spec fn b64_standard_decoded(data: Seq<char>) -> Result<Seq<u8>, Seq<char>>;

/// Calls `base64::engine::general_purpose::STANDARD.decode` on the bytes of `data`; an error
/// becomes its `Display` text. Both outcomes are named by `b64_standard_decoded`.
#[verifier::external_body]
pub(crate) fn decode_standard(data: &str) -> (r: Result<Vec<u8>, String>)
    ensures
        match r {
            Ok(b) => b64_standard_decoded(data@) == Ok::<Seq<u8>, Seq<char>>(b@),
            Err(e) => b64_standard_decoded(data@) == Err::<Seq<u8>, Seq<char>>(e@),
        },
{
    general_purpose::STANDARD.decode(data).map_err(|e| e.to_string())
}

/// The UTF-8 bytes of a text.
pub fn text_bytes(text: &str) -> (r: Vec<u8>)
    ensures
        r@ == encode_utf8(text@),
{
    vstd::slice::slice_to_vec(text.as_bytes())
}

/// Calls `String::from_utf8_lossy`; the text is named by `utf8_lossy`. The one fact stated
/// beyond the name is the documented one: valid UTF-8 is decoded as is.
#[verifier::external_body]
pub(crate) fn from_utf8_lossy(bytes: &Vec<u8>) -> (r: String)
    ensures
        r@ == utf8_lossy(bytes@),
        valid_utf8(bytes@) ==> r@ == decode_utf8(bytes@),
{
    String::from_utf8_lossy(bytes).to_string()
}

/// A lower-case hexadecimal digit of a number below 16.
pub open spec fn hex_char(n: int) -> char {
    if n < 10 {
        (48 + n) as char
    } else {
        (87 + n) as char
    }
}

/// How `serde_json` writes one character inside a string: `"` and `\` behind a backslash,
/// backspace, tab, line feed, form feed and carriage return as `\b`, `\t`, `\n`, `\f`, `\r`,
/// the other characters below U+0020 as `\u00` and two hexadecimal digits, any other as is.
pub open spec fn json_escape(c: char) -> Seq<char> {
    if c == '"' {
        seq!['\\', '"']
    } else if c == '\\' {
        seq!['\\', '\\']
    } else if c == '\u{8}' {
        seq!['\\', 'b']
    } else if c == '\t' {
        seq!['\\', 't']
    } else if c == '\n' {
        seq!['\\', 'n']
    } else if c == '\u{c}' {
        seq!['\\', 'f']
    } else if c == '\r' {
        seq!['\\', 'r']
    } else if (c as int) < 32 {
        seq!['\\', 'u', '0', '0', hex_char(c as int / 16), hex_char(c as int % 16)]
    } else {
        seq![c]
    }
}

/// The characters of a text, each written as `json_escape` writes it.
pub open spec fn json_escaped(s: Seq<char>) -> Seq<char>
    decreases s.len(),
{
    if s.len() == 0 {
        Seq::empty()
    } else {
        json_escaped(s.drop_last()) + json_escape(s.last())
    }
}

/// The JSON string literal that `serde_json` writes for a text: the escaped text in quotes.
pub open spec fn json_string_literal(s: Seq<char>) -> Seq<char> {
    seq!['"'] + json_escaped(s) + seq!['"']
}

/// Calls `Display` of `serde_json::Value::String`, which writes the text as a JSON string
/// literal (`json_string_literal`: the escapes of `serde_json`'s string writer, in quotes).
#[verifier::external_body]
pub(crate) fn json_quote(s: &str) -> (r: String)
    ensures
        r@ == json_string_literal(s@),
{
    serde_json::Value::String(s.to_owned()).to_string()
}

/// Whether `regex::Regex::new` accepts a pattern.
pub uninterp spec fn regex_compiles(pattern: Seq<char>) -> bool;

/// What `Regex::replace_all` gives for a pattern, a text and a replacement.
pub uninterp spec fn regex_replaced(pattern: Seq<char>, text: Seq<char>, rep: Seq<char>) -> Seq<char>;

/// Calls `regex::Regex::new(pattern)` and, where it succeeds, `replace_all(text, rep)`.
/// `None` exactly where the pattern is refused (named `regex_compiles`); the replaced text is
/// named `regex_replaced`, not spelled out.
#[verifier::external_body]
pub(crate) fn regex_replace_all(pattern: &str, text: &str, rep: &str) -> (r: Option<String>)
    ensures
        r is Some <==> regex_compiles(pattern@),
        r matches Some(t) ==> t@ == regex_replaced(pattern@, text@, rep@),
{
    match regex::Regex::new(pattern) {
        Ok(re) => Some(re.replace_all(text, rep).to_string()),
        Err(_) => None,
    }
}

/// A date written `YYYY-MM-DD`, each place a digit.
pub open spec fn ymd_text(t: Seq<char>) -> bool {
    &&& t.len() == 10
    &&& digit(t[0]) && digit(t[1]) && digit(t[2]) && digit(t[3]) && t[4] == '-'
    &&& digit(t[5]) && digit(t[6]) && t[7] == '-' && digit(t[8]) && digit(t[9])
}

/// An RFC 3339 instant in UTC as chrono writes it: `YYYY-MM-DDTHH:MM:SS`, then fractional
/// seconds or nothing, then `+00:00`.
pub open spec fn utc_rfc3339_text(t: Seq<char>) -> bool {
    &&& t.len() >= 25
    &&& ymd_text(t.take(10))
    &&& t[10] == 'T'
    &&& hms_text(t.subrange(11, 19))
    &&& t.skip(t.len() - 6) == "+00:00"@
}

/// Calls `chrono::Utc::now().to_rfc3339()`: the current instant. The clock is read, so only
/// the shape that chrono's RFC 3339 writer gives is stated (four-digit years, as it writes for
/// the years 0 to 9999 that a clock reads), not which instant it is.
#[verifier::external_body]
pub fn utc_now_rfc3339() -> (r: String)
    ensures
        utc_rfc3339_text(r@),
{
    chrono::Utc::now().to_rfc3339()
}

/// A decimal digit.
pub open spec fn digit(c: char) -> bool {
    '0' <= c && c <= '9'
}

/// A text of the form `HH:MM`, each place a digit.
pub open spec fn hm_text(t: Seq<char>) -> bool {
    &&& t.len() == 5
    &&& digit(t[0]) && digit(t[1]) && t[2] == ':' && digit(t[3]) && digit(t[4])
}

/// The date text of the wake-up briefing: `YYYY-MM-DD`, then ` (`, then the spelled-out date,
/// then `)`.
pub open spec fn dated_text(t: Seq<char>) -> bool {
    &&& t.len() >= 13
    &&& ymd_text(t.take(10))
    &&& t[10] == ' ' && t[11] == '('
    &&& t.last() == ')'
}

/// A text of the form `HH:MM:SS`, each place a digit.
pub open spec fn hms_text(t: Seq<char>) -> bool {
    &&& t.len() == 8
    &&& hm_text(t.take(5))
    &&& t[5] == ':' && digit(t[6]) && digit(t[7])
}

/// Calls `chrono::Utc::now().with_timezone(&chrono_tz::Europe::Paris).format("%H:%M:%S")`:
/// the wall-clock time in Paris. The clock is read, so only the shape that chrono documents
/// for `%H`, `%M` and `%S` (two zero-padded digits each) is stated, not which time it is.
#[verifier::external_body]
pub fn paris_clock() -> (r: String)
    ensures
        hms_text(r@),
{
    chrono::Utc::now().with_timezone(&chrono_tz::Europe::Paris).format("%H:%M:%S").to_string()
}

/// Calls `chrono::Utc::now().with_timezone(&chrono_tz::Europe::Paris)` and formats it as
/// `%Y-%m-%d (%A %d %B %Y)` and `%H:%M`: today's date and the time in Paris. The clock is
/// read, so only the shapes are stated: the date text starts `YYYY-MM-DD` (four-digit years,
/// as chrono writes the years 0 to 9999 that a clock reads), goes on with ` (` and ends with
/// `)`; the time is two zero-padded digits, a colon and two more.
#[verifier::external_body]
pub fn paris_date_and_time() -> (r: (String, String))
    ensures
        dated_text(r.0@),
        hm_text(r.1@),
{
    let now = chrono::Utc::now().with_timezone(&chrono_tz::Europe::Paris);
    (now.format("%Y-%m-%d (%A %d %B %Y)").to_string(), now.format("%H:%M").to_string())
}

/// A lower-case hexadecimal digit.
pub open spec fn hex_digit(c: char) -> bool {
    digit(c) || ('a' <= c && c <= 'f')
}

/// The hyphenated form of a UUID: 36 characters, hyphens at places 8, 13, 18 and 23,
/// lower-case hexadecimal digits elsewhere.
pub open spec fn hyphenated_uuid(t: Seq<char>) -> bool {
    &&& t.len() == 36
    &&& forall|i: int| 0 <= i < 36 ==> if i == 8 || i == 13 || i == 18 || i == 23 {
        #[trigger] t[i] == '-'
    } else {
        hex_digit(t[i])
    }
}

/// Calls `uuid::Uuid::new_v4().to_string()`: a random identifier. Which one is chance, so
/// only its shape is stated: `Display` of `Uuid` writes the lower-case hyphenated form.
#[verifier::external_body]
pub fn new_uuid() -> (r: String)
    ensures
        hyphenated_uuid(r@),
{
    uuid::Uuid::new_v4().to_string()
}

} // verus!
