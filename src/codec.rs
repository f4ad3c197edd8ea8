use base64::Engine as _;
use vstd::prelude::*;
use vstd::utf8::{decode_utf8, valid_utf8};

verus! {

/// The standard (padded, `+/`) base64 text of some bytes.
pub uninterp spec fn base64_encoding(bytes: Seq<u8>) -> Seq<char>;

/// What the standard base64 engine decodes a text to, or `None` when it
/// rejects the text.
pub uninterp spec fn base64_decoding(text: Seq<char>) -> Option<Seq<u8>>;

/// What a raw DEFLATE stream inflates to, or `None` when it is not one.
pub uninterp spec fn raw_inflation(bytes: Seq<u8>) -> Option<Seq<u8>>;

/// Text cut into lines of at most 64 characters, each ended by CRLF.
pub open spec fn pem_lines(text: Seq<char>) -> Seq<char>
    decreases text.len(),
{
    if text.len() == 0 {
        Seq::empty()
    } else if text.len() <= 64 {
        text + "\r\n"@
    } else {
        text.take(64) + "\r\n"@ + pem_lines(text.skip(64))
    }
}

/// The PEM text of a document with the given label and contents and no
/// headers: a BEGIN line, the base64 of the contents in lines of 64
/// characters (none for empty contents), and an END line, all ended by CRLF.
pub open spec fn pem_encoding(label: Seq<char>, contents: Seq<u8>) -> Seq<char> {
    let body = if contents.len() == 0 {
        Seq::empty()
    } else {
        base64_encoding(contents)
    };
    "-----BEGIN "@ + label + "-----\r\n"@ + pem_lines(body) + "-----END "@ + label + "-----\r\n"@
}

/// Relies on base64's `STANDARD.encode`: the encoding depends on the bytes
/// alone.
#[verifier::external_body]
pub(crate) fn encode_base64(bytes: &[u8]) -> (r: String)
    ensures
        r@ == base64_encoding(bytes@),
{
    base64::engine::general_purpose::STANDARD.encode(bytes)
}

/// Relies on base64's `STANDARD.decode`: the outcome depends on the text alone.
#[verifier::external_body]
pub(crate) fn decode_base64(text: &str) -> (r: Option<Vec<u8>>)
    ensures
        match r {
            Some(bytes) => base64_decoding(text@) == Some(bytes@),
            None => base64_decoding(text@) is None,
        },
{
    base64::engine::general_purpose::STANDARD.decode(text).ok()
}

/// Relies on flate2's `read::DeflateDecoder`, read to the end: the outcome
/// depends on the bytes alone.
#[verifier::external_body]
pub(crate) fn inflate_raw(bytes: &[u8]) -> (r: Option<Vec<u8>>)
    ensures
        match r {
            Some(out) => raw_inflation(bytes@) == Some(out@),
            None => raw_inflation(bytes@) is None,
        },
{
    let mut out = Vec::new();
    let mut decoder = flate2::read::DeflateDecoder::new(bytes);
    match std::io::Read::read_to_end(&mut decoder, &mut out) {
        Ok(_) => Some(out),
        Err(_) => None,
    }
}

/// Relies on `String::from_utf8`: it accepts exactly the valid UTF-8 byte
/// sequences and keeps their characters.
#[verifier::external_body]
pub(crate) fn utf8_text(bytes: Vec<u8>) -> (r: Option<String>)
    ensures
        r is Some <==> valid_utf8(bytes@),
        match r {
            Some(s) => s@ == decode_utf8(bytes@),
            None => true,
        },
{
    String::from_utf8(bytes).ok()
}

/// Relies on pem's `encode` of a `Pem::new(label, contents)`: with no headers
/// and the default configuration (CRLF, 64 columns) it writes the BEGIN line,
/// the standard base64 of non-empty contents in chunks, and the END line.
#[verifier::external_body]
pub(crate) fn encode_pem(label: &str, contents: Vec<u8>) -> (r: String)
    ensures
        r@ == pem_encoding(label@, contents@),
{
    pem::encode(&pem::Pem::new(label, contents))
}

} // verus!
