//! Addresses of the companion service that keeps articles locally.
//!
//! The requests themselves are sent elsewhere; this module says what is
//! asked for and how a value is written into a query string.

use vstd::prelude::*;
use vstd::utf8::encode_utf8;
use crate::text::{appended, decimal, join, joined, push_decimal, push_line, texts};

verus! {

/// Where the companion service listens.
pub const BASE_URL: &'static str = "http://127.0.0.1:8787";

/// The answer of the health endpoint.
#[derive(Debug)]
pub struct KeepLocalHealth {
    pub ok: bool,
    pub now: i64,
}

/// One saved article.
#[derive(Debug, Clone)]
pub struct KeepLocalItem {
    pub id: String,
    pub url: String,
    pub title: Option<String>,
    pub author: Option<String>,
    pub domain: Option<String>,
    pub platform: Option<String>,
    pub word_count: i64,
    pub tags: Vec<String>,
    pub created_at: i64,
    pub status: String,
    pub content_available: bool,
}

/// One page of saved articles.
#[derive(Debug)]
pub struct KeepLocalListResult {
    pub items: Vec<KeepLocalItem>,
    pub count: i64,
}

/// Bytes that stand for themselves in a query value: ASCII letters and
/// digits, hyphen, underscore, dot and tilde.
pub open spec fn is_unreserved(b: u8) -> bool {
    (0x41 <= b <= 0x5a) || (0x61 <= b <= 0x7a) || (0x30 <= b <= 0x39) || b == 0x2d || b == 0x5f
        || b == 0x2e || b == 0x7e
}

/// The upper-case hexadecimal digit for a value below sixteen.
pub open spec fn hex_digit(n: int) -> char {
    if n < 10 {
        (0x30 + n) as char
    } else {
        (0x41 + n - 10) as char
    }
}

/// One byte as it is written into a query value: itself where unreserved,
/// else a percent sign and its two hexadecimal digits.
pub open spec fn encoded_byte(b: u8) -> Seq<char> {
    if is_unreserved(b) {
        seq![b as char]
    } else {
        seq!['%', hex_digit(b as int / 16), hex_digit(b as int % 16)]
    }
}

/// The bytes written one after the other.
pub open spec fn percent_encoded(bytes: Seq<u8>) -> Seq<char>
    decreases bytes.len(),
{
    if bytes.len() == 0 {
        Seq::empty()
    } else {
        percent_encoded(bytes.drop_last()) + encoded_byte(bytes.last())
    }
}

fn hex_char(n: u8) -> (c: char)
    requires
        n < 16,
    ensures
        c == hex_digit(n as int),
{
    if n < 10 {
        (0x30u8 + n) as char
    } else {
        (0x41u8 + n - 10) as char
    }
}

/// Percent-encodes the UTF-8 bytes of `s` for use as a query value.
pub fn urlencoding(s: &str) -> (out: String)
    ensures
        out@ == percent_encoded(encode_utf8(s@)),
{
    let bytes = s.as_bytes();
    let mut out = String::new();
    let mut i: usize = 0;
    while i < bytes.len()
        invariant
            i <= bytes@.len(),
            bytes@ == encode_utf8(s@),
            out@ == percent_encoded(bytes@.take(i as int)),
        decreases bytes.len() - i,
    {
        let b = bytes[i];
        proof {
            assert(bytes@.take(i + 1).drop_last() =~= bytes@.take(i as int));
        }
        let ghost before = out@;
        if (0x41 <= b && b <= 0x5a) || (0x61 <= b && b <= 0x7a) || (0x30 <= b && b <= 0x39) || b
            == 0x2d || b == 0x5f || b == 0x2e || b == 0x7e {
            out.push(b as char);
            assert(out@ =~= before + encoded_byte(b));
        } else {
            out.push('%');
            out.push(hex_char(b / 16));
            out.push(hex_char(b % 16));
            assert(out@ =~= before + encoded_byte(b));
        }
        i += 1;
    }
    assert(bytes@.take(i as int) =~= bytes@);
    out
}

/// The address of the health endpoint.
pub open spec fn health_address() -> Seq<char> {
    BASE_URL@ + "/api/health"@
}

/// The address of one article without its content.
pub open spec fn item_address(item_id: Seq<char>) -> Seq<char> {
    BASE_URL@ + "/api/items/"@ + item_id + "?content=0"@
}

/// The address of the content of one article.
pub open spec fn content_address(item_id: Seq<char>) -> Seq<char> {
    BASE_URL@ + "/api/items/"@ + item_id + "/content"@
}

/// A number as a parameter of a query, where the caller gives one.
pub open spec fn number_parameter(name: Seq<char>, value: Option<i32>) -> Seq<Seq<char>> {
    match value {
        Some(n) => seq![name + seq!['='] + decimal(n as int)],
        None => Seq::empty(),
    }
}

/// A text as a parameter of a query, percent-encoded, where the caller
/// gives one that is not empty.
pub open spec fn text_parameter(name: Seq<char>, value: Option<String>) -> Seq<Seq<char>> {
    match value {
        Some(text) => if text@.len() == 0 {
            Seq::empty()
        } else {
            seq![name + seq!['='] + percent_encoded(encode_utf8(text@))]
        },
        None => Seq::empty(),
    }
}

/// The parameters of a listing of articles, in the order in which they are
/// written.
pub open spec fn list_parameters(
    limit: Option<i32>,
    offset: Option<i32>,
    query: Option<String>,
    status: Option<String>,
) -> Seq<Seq<char>> {
    number_parameter("limit"@, limit) + number_parameter("offset"@, offset) + text_parameter(
        "q"@,
        query,
    ) + text_parameter("status"@, status)
}

/// The address of a listing of articles: the endpoint, and after a question
/// mark the parameters joined by ampersands, where there are any.
pub open spec fn list_address(
    limit: Option<i32>,
    offset: Option<i32>,
    query: Option<String>,
    status: Option<String>,
) -> Seq<char> {
    let parameters = list_parameters(limit, offset, query, status);
    if parameters.len() == 0 {
        BASE_URL@ + "/api/items"@
    } else {
        BASE_URL@ + "/api/items"@ + seq!['?'] + joined(parameters, seq!['&'])
    }
}

/// The address of the health endpoint.
pub fn health_url() -> (url: String)
    ensures
        url@ == health_address(),
{
    appended(BASE_URL, "/api/health")
}

/// The address of one article without its content.
pub fn item_url(item_id: &str) -> (url: String)
    ensures
        url@ == item_address(item_id@),
{
    let mut url = appended(BASE_URL, "/api/items/");
    url.append(item_id);
    url.append("?content=0");
    url
}

/// The address of the content of one article.
pub fn content_url(item_id: &str) -> (url: String)
    ensures
        url@ == content_address(item_id@),
{
    let mut url = appended(BASE_URL, "/api/items/");
    url.append(item_id);
    url.append("/content");
    url
}

fn push_number_parameter(parameters: &mut Vec<String>, name: &str, value: Option<i32>)
    ensures
        texts(final(parameters)@) == texts(old(parameters)@) + number_parameter(name@, value),
{
    match value {
        Some(n) => {
            let mut parameter = String::from_str(name);
            parameter.push('=');
            push_decimal(&mut parameter, n as i64);
            assert(parameter@ =~= name@ + seq!['='] + decimal(n as int));
            push_line(parameters, parameter);
            assert(texts(parameters@) =~= texts(old(parameters)@) + number_parameter(name@, value));
        },
        None => {
            assert(texts(parameters@) =~= texts(old(parameters)@) + number_parameter(name@, value));
        },
    }
}

fn push_text_parameter(parameters: &mut Vec<String>, name: &str, value: &Option<String>)
    ensures
        texts(final(parameters)@) == texts(old(parameters)@) + text_parameter(name@, *value),
{
    let ghost start = texts(parameters@);
    match value {
        Some(text) => {
            if text.as_str().unicode_len() > 0 {
                let mut parameter = String::from_str(name);
                parameter.push('=');
                let encoded = urlencoding(text.as_str());
                parameter.append(encoded.as_str());
                assert(parameter@ =~= name@ + seq!['='] + percent_encoded(encode_utf8(text@)));
                push_line(parameters, parameter);
                assert(texts(parameters@) =~= start + text_parameter(name@, *value));
            } else {
                assert(texts(parameters@) =~= start + text_parameter(name@, *value));
            }
        },
        None => {
            assert(texts(parameters@) =~= start + text_parameter(name@, *value));
        },
    }
}

/// The address of a listing of articles.
pub fn list_items_url(
    limit: Option<i32>,
    offset: Option<i32>,
    query: &Option<String>,
    status: &Option<String>,
) -> (url: String)
    ensures
        url@ == list_address(limit, offset, *query, *status),
{
    let mut parameters: Vec<String> = Vec::new();
    assert(texts(parameters@) =~= Seq::<Seq<char>>::empty());
    push_number_parameter(&mut parameters, "limit", limit);
    push_number_parameter(&mut parameters, "offset", offset);
    push_text_parameter(&mut parameters, "q", query);
    push_text_parameter(&mut parameters, "status", status);
    assert(texts(parameters@) =~= list_parameters(limit, offset, *query, *status));
    let mut url = appended(BASE_URL, "/api/items");
    if parameters.len() > 0 {
        url.push('?');
        let tail = join(&parameters, "&");
        proof {
            reveal_strlit("&");
            assert("&"@ =~= seq!['&']);
        }
        url.append(tail.as_str());
        assert(url@ =~= list_address(limit, offset, *query, *status));
    }
    url
}

pub const CONTENT_UNAVAILABLE: &'static str = "Content not available";

/// The message for content that the service refused, with its status.
pub open spec fn refused_text(status: Seq<char>) -> Seq<char> {
    "Content not available (HTTP "@ + status + seq![')']
}

/// What the content of an article is once the service has answered: the
/// body, unless the service refused or the body is empty.
pub fn content_outcome(succeeded: bool, status: &str, body: String) -> (r: Result<String, String>)
    ensures
        !succeeded ==> r is Err && r->Err_0@ == refused_text(status@),
        succeeded && body@.len() == 0 ==> r is Err && r->Err_0@ == CONTENT_UNAVAILABLE@,
        succeeded && body@.len() > 0 ==> r == Ok::<String, String>(body),
{
    if !succeeded {
        let mut message = String::from_str("Content not available (HTTP ");
        message.append(status);
        message.push(')');
        assert(message@ =~= refused_text(status@));
        return Err(message);
    }
    if body.as_str().unicode_len() == 0 {
        return Err(String::from_str(CONTENT_UNAVAILABLE));
    }
    Ok(body)
}

} // verus!
