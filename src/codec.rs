//! Byte encodings on the wire: gzip transport compression, JSON text values,
//! and decimal numerals.

use vstd::prelude::*;
use vstd::string::*;

verus! {

/// The gzip stream that the default encoder writes for `data`.
pub uninterp spec fn gzip_of(data: Seq<u8>) -> Seq<u8>;

/// What the gzip decoder reads from `data`: its payload, or `None` for a
/// stream it rejects.
pub uninterp spec fn gunzip_of(data: Seq<u8>) -> Option<Seq<u8>>;

/// The JSON document that encodes the string `text`.
pub uninterp spec fn json_text_of(text: Seq<char>) -> Seq<u8>;

/// The string that the JSON document `doc` holds, or `None` where `doc` is
/// no JSON string.
pub uninterp spec fn json_text_parse(doc: Seq<u8>) -> Option<Seq<char>>;

/// Relies on `flate2::write::GzEncoder` at the default level: the result is
/// the gzip stream for `data` (a fixed header without time stamp, so a
/// function of `data` alone), and the decoder gives `data` back from it.
#[verifier::external_body]
fn gzip_bytes(data: &[u8]) -> (r: Vec<u8>)
    ensures
        r@ == gzip_of(data@),
        gunzip_of(r@) == Some(data@),
{
    let mut enc = flate2::write::GzEncoder::new(Vec::new(), flate2::Compression::default());
    let _ = std::io::Write::write_all(&mut enc, data);
    enc.finish().unwrap_or_default()
}

/// Relies on `flate2::read::GzDecoder` read to its end: the payload of the
/// stream, `None` where the decoder reports an error.
#[verifier::external_body]
fn gunzip_bytes(data: &[u8]) -> (r: Option<Vec<u8>>)
    ensures
        r is Some <==> gunzip_of(data@) is Some,
        r is Some ==> r->0@ == gunzip_of(data@)->0,
{
    let mut out = Vec::new();
    match std::io::Read::read_to_end(&mut flate2::read::GzDecoder::new(data), &mut out) {
        Ok(_) => Some(out),
        Err(_) => None,
    }
}

/// Relies on `serde_json::to_vec` on a `str`: the JSON string literal for
/// `text`, which `serde_json::from_slice` reads back as `text`.
#[verifier::external_body]
fn json_text_bytes(text: &str) -> (r: Vec<u8>)
    ensures
        r@ == json_text_of(text@),
        json_text_parse(r@) == Some(text@),
{
    serde_json::to_vec(text).unwrap_or_default()
}

/// Relies on `serde_json::from_slice::<String>`: the string that the
/// document holds, `None` where serde_json reports an error.
#[verifier::external_body]
fn json_text_read(doc: &[u8]) -> (r: Option<String>)
    ensures
        r is Some <==> json_text_parse(doc@) is Some,
        r is Some ==> r->0@ == json_text_parse(doc@)->0,
{
    serde_json::from_slice::<String>(doc).ok()
}

/// Appends the gzip stream for `inp` to `out`.
pub fn gz_compress(inp: &[u8], out: &mut Vec<u8>)
    ensures
        final(out)@ == old(out)@ + gzip_of(inp@),
        gunzip_of(gzip_of(inp@)) == Some(inp@),
{
    let packed = gzip_bytes(inp);
    out.extend_from_slice(packed.as_slice());
}

/// The gzip stream for `data`.
pub fn compress(data: &[u8]) -> (r: Vec<u8>)
    ensures
        r@ == gzip_of(data@),
        gunzip_of(r@) == Some(data@),
{
    gzip_bytes(data)
}

/// The payload of a gzip stream; `None` where the stream is rejected.
pub fn decompress(data: &[u8]) -> (r: Option<Vec<u8>>)
    ensures
        r is Some <==> gunzip_of(data@) is Some,
        r is Some ==> r->0@ == gunzip_of(data@)->0,
{
    gunzip_bytes(data)
}

/// The JSON document for a text value.
pub fn encode_text(text: &str) -> (r: Vec<u8>)
    ensures
        r@ == json_text_of(text@),
        json_text_parse(r@) == Some(text@),
{
    json_text_bytes(text)
}

/// The text value that a JSON document holds; `None` where it holds none.
pub fn decode_text(doc: &[u8]) -> (r: Option<String>)
    ensures
        r is Some <==> json_text_parse(doc@) is Some,
        r is Some ==> r->0@ == json_text_parse(doc@)->0,
{
    json_text_read(doc)
}

/// The decimal numeral of `n`, most significant digit first, without
/// leading zeros.
pub open spec fn decimal(n: nat) -> Seq<char>
    decreases n,
{
    if n < 10 {
        seq![digit_char(n)]
    } else {
        decimal(n / 10).push(digit_char(n % 10))
    }
}

pub open spec fn digit_char(d: nat) -> char {
    (('0' as u8) + (d as u8)) as char
}

pub open spec fn is_digit(c: char) -> bool {
    '0' <= c && c <= '9'
}

pub proof fn lemma_decimal_digits(n: nat)
    ensures
        decimal(n).len() >= 1,
        forall|i: int| 0 <= i < decimal(n).len() ==> is_digit(#[trigger] decimal(n)[i]),
    decreases n,
{
    if n >= 10 {
        lemma_decimal_digits(n / 10);
    }
}

fn digit_str(d: u64) -> (r: &'static str)
    requires
        d < 10,
    ensures
        r@ == seq![digit_char(d as nat)],
{
    proof {
        reveal_strlit("0");
        reveal_strlit("1");
        reveal_strlit("2");
        reveal_strlit("3");
        reveal_strlit("4");
        reveal_strlit("5");
        reveal_strlit("6");
        reveal_strlit("7");
        reveal_strlit("8");
        reveal_strlit("9");
    }
    match d {
        0 => "0",
        1 => "1",
        2 => "2",
        3 => "3",
        4 => "4",
        5 => "5",
        6 => "6",
        7 => "7",
        8 => "8",
        _ => "9",
    }
}

/// The decimal numeral of `n`.
pub fn decimal_string(n: u64) -> (r: String)
    ensures
        r@ == decimal(n as nat),
    decreases n,
{
    if n < 10 {
        String::from_str(digit_str(n))
    } else {
        let mut s = decimal_string(n / 10);
        s.append(digit_str(n % 10));
        s
    }
}

} // verus!
