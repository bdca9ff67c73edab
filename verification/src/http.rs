//! The logic of the blocking HTTP helpers: which headers a request carries,
//! which responses count as success, what error each failure becomes, and how
//! a streamed download counts its progress. The transport itself runs outside
//! the library, which hands each outcome back to these functions.

use vstd::prelude::*;
use vstd::string::*;
use crate::error::{Error, ErrorView, http_err};
use crate::text::{decimal, lemma_parse_decimal, parse_u64, parsed_u64};

verus! {

/// `User-Agent` sent on every request. GitHub rejects API requests without one.
pub const USER_AGENT: &'static str = "gpui-updater/0.1.0";

/// A `GET` request: its URL and its headers, in the order they are sent.
pub struct HttpRequest {
    pub url: String,
    pub headers: Vec<(String, String)>,
}

/// The view of a header list: pairs of texts.
pub open spec fn headers_view(h: Seq<(String, String)>) -> Seq<(Seq<char>, Seq<char>)> {
    h.map_values(|p: (String, String)| (p.0@, p.1@))
}

/// The status line of a response: its code and its display text (such as
/// `404 Not Found`).
pub struct HttpStatus {
    pub code: u16,
    pub text: String,
}

/// Whether a status code is a success (`2xx`).
pub open spec fn is_success(code: u16) -> bool {
    200 <= code && code <= 299
}

/// The error text for a non-success response to `GET url`.
pub open spec fn status_error_text(url: Seq<char>, status: Seq<char>) -> Seq<char> {
    "GET "@ + url + " -> "@ + status
}

/// A header given as two string slices.
fn header(name: &str, value: &str) -> (h: (String, String))
    ensures
        h.0@ == name@,
        h.1@ == value@,
{
    (String::from_str(name), String::from_str(value))
}

/// A `GET` of `url` that sends `user-agent` first and then `headers` in order.
pub fn build(url: &str, headers: &[(String, String)]) -> (r: HttpRequest)
    ensures
        r.url@ == url@,
        headers_view(r.headers@) == seq![("user-agent"@, USER_AGENT@)] + headers_view(headers@),
{
    let mut out: Vec<(String, String)> = Vec::new();
    out.push(header("user-agent", USER_AGENT));
    let mut i: usize = 0;
    while i < headers.len()
        invariant
            i <= headers@.len(),
            headers_view(out@) == seq![("user-agent"@, USER_AGENT@)]
                + headers_view(headers@.subrange(0, i as int)),
        decreases headers@.len() - i,
    {
        let (k, v) = &headers[i];
        let ghost before = out@;
        out.push((k.clone(), v.clone()));
        proof {
            assert(headers_view(out@) =~= headers_view(before).push((k@, v@)));
            assert(headers_view(headers@.subrange(0, i + 1)) =~= headers_view(
                headers@.subrange(0, i as int),
            ).push((k@, v@)));
            assert(headers@.subrange(0, i + 1) =~= headers@.subrange(0, i as int).push(headers@[i as int]));
            assert(headers_view(out@) =~= seq![("user-agent"@, USER_AGENT@)]
                + headers_view(headers@.subrange(0, i + 1)));
        }
        i = i + 1;
    }
    assert(headers@.subrange(0, headers@.len() as int) =~= headers@);
    HttpRequest { url: String::from_str(url), headers: out }
}

/// The request that streams an artifact: `build`'s headers followed by
/// `accept: application/octet-stream`.
pub fn download_request(url: &str, headers: &[(String, String)]) -> (r: HttpRequest)
    ensures
        r.url@ == url@,
        headers_view(r.headers@) == seq![("user-agent"@, USER_AGENT@)] + headers_view(headers@)
            + seq![("accept"@, "application/octet-stream"@)],
{
    let mut r = build(url, headers);
    let ghost before = r.headers@;
    r.headers.push(header("accept", "application/octet-stream"));
    assert(headers_view(r.headers@) =~= headers_view(before) + seq![("accept"@, "application/octet-stream"@)]);
    r
}

/// The outcome of sending `GET url`: the transport's failure becomes an HTTP
/// error with its text, a non-success status becomes `GET url -> status`.
pub open spec fn response_outcome(url: Seq<char>, call: Result<HttpStatus, String>) -> Result<(), ErrorView> {
    match call {
        Err(t) => Err(ErrorView::Http(t@)),
        Ok(st) => if is_success(st.code) {
            Ok(())
        } else {
            Err(ErrorView::Http(status_error_text(url, st.text@)))
        },
    }
}

/// Every `2xx` status is a success and every other status is refused with
/// `GET <url> -> <status>`; a transport failure is an HTTP error carrying
/// its text.
pub proof fn lemma_response_outcomes(url: Seq<char>, st: HttpStatus, t: String)
    ensures
        200 <= st.code <= 299 ==> response_outcome(url, Ok(st)) == Ok::<(), ErrorView>(()),
        st.code < 200 || st.code > 299 ==> response_outcome(url, Ok(st)) == Err::<(), ErrorView>(
            ErrorView::Http("GET "@ + url + " -> "@ + st.text@),
        ),
        response_outcome(url, Err(t)) == Err::<(), ErrorView>(ErrorView::Http(t@)),
        announced_total(None) is None,
{
}

/// Checks a response of `GET url` as the helpers do before reading its body.
pub fn check_response(url: &str, call: Result<HttpStatus, String>) -> (r: Result<(), Error>)
    ensures
        r is Ok <==> response_outcome(url@, call) is Ok,
        r matches Err(e) ==> response_outcome(url@, call) == Err::<(), ErrorView>(e@),
{
    match call {
        Err(t) => Err(http_err(t)),
        Ok(st) => if 200 <= st.code && st.code <= 299 {
            Ok(())
        } else {
            let text = String::from_str("GET ").concat(url).concat(" -> ").concat(st.text.as_str());
            Err(Error::Http(text))
        },
    }
}

/// `GET` a URL and return the body as text. `call` is the outcome of sending
/// the request; `read_body` reads the body and is called only when the
/// response is a success. A body that cannot be read is an HTTP error.
pub fn get_string<F: FnOnce() -> Result<String, String>>(
    url: &str,
    call: Result<HttpStatus, String>,
    read_body: F,
) -> (r: Result<String, Error>)
    requires
        response_outcome(url@, call) is Ok ==> read_body.requires(()),
    ensures
        response_outcome(url@, call) matches Err(e) ==> (r matches Err(x) && x@ == e),
        response_outcome(url@, call) is Ok ==> exists|body: Result<String, String>|
            read_body.ensures((), body) && r == match body {
                Ok(s) => Ok::<String, Error>(s),
                Err(t) => Err(Error::Http(t)),
            },
{
    match check_response(url, call) {
        Err(e) => Err(e),
        Ok(()) => {
            let body = read_body();
            match body {
                Ok(s) => Ok(s),
                Err(t) => Err(http_err(t)),
            }
        },
    }
}

/// `GET` a URL and deserialize the JSON body. `call` is the outcome of
/// sending the request; `read_json` reads and decodes the body and is called
/// only when the response is a success. A body that cannot be decoded is a
/// parse error.
pub fn get_json<T, F: FnOnce() -> Result<T, String>>(
    url: &str,
    call: Result<HttpStatus, String>,
    read_json: F,
) -> (r: Result<T, Error>)
    requires
        response_outcome(url@, call) is Ok ==> read_json.requires(()),
    ensures
        response_outcome(url@, call) matches Err(e) ==> (r matches Err(x) && x@ == e),
        response_outcome(url@, call) is Ok ==> exists|body: Result<T, String>|
            read_json.ensures((), body) && r == match body {
                Ok(v) => Ok::<T, Error>(v),
                Err(t) => Err(Error::Parse(t)),
            },
{
    match check_response(url, call) {
        Err(e) => Err(e),
        Ok(()) => {
            let body = read_json();
            match body {
                Ok(v) => Ok(v),
                Err(t) => Err(Error::Parse(t)),
            }
        },
    }
}

/// The total size announced by a `Content-Length` header, when it is present
/// and is a decimal `u64`.
pub open spec fn announced_total(content_length: Option<Seq<char>>) -> Option<u64> {
    match content_length {
        Some(t) => parsed_u64(t),
        None => None,
    }
}

/// A `Content-Length` header that holds the decimal rendering of a number
/// announces exactly that number as the total, for every `u64`.
pub proof fn lemma_content_length_announces_its_value(n: u64)
    ensures
        announced_total(Some(decimal(n as nat))) == Some(n),
{
    lemma_parse_decimal(n);
}

/// The progress of a streamed download: bytes received so far and the total,
/// when the server announced one.
pub struct DownloadProgress {
    pub downloaded: u64,
    pub total: Option<u64>,
}

/// Starts a download of `url`: checks the response and reads the total from
/// its `Content-Length` header (`None` when absent or not a number).
pub fn start_download(url: &str, call: Result<HttpStatus, String>, content_length: Option<&str>) -> (r: Result<DownloadProgress, Error>)
    ensures
        response_outcome(url@, call) matches Err(e) ==> (r matches Err(x) && x@ == e),
        response_outcome(url@, call) is Ok ==> (r matches Ok(p) && p.downloaded == 0
            && p.total == announced_total(match content_length { Some(t) => Some(t@), None => None })),
{
    match check_response(url, call) {
        Err(e) => Err(e),
        Ok(()) => {
            let total = match content_length {
                Some(t) => parse_u64(t),
                None => None,
            };
            Ok(DownloadProgress { downloaded: 0, total })
        },
    }
}

/// What to do after a read of `n` bytes: a read of zero bytes ends the
/// stream; otherwise the bytes are written and `(downloaded, total)` is
/// reported.
pub enum ChunkAction {
    Finish,
    WriteAndReport { len: usize, downloaded: u64, total: Option<u64> },
}

/// Accounts for one read of `n` bytes.
pub fn on_chunk(p: &mut DownloadProgress, n: usize) -> (a: ChunkAction)
    requires
        old(p).downloaded + n <= u64::MAX,
    ensures
        n == 0 ==> a is Finish && *final(p) == *old(p),
        n > 0 ==> final(p).downloaded == old(p).downloaded + n && final(p).total == old(p).total
            && a == (ChunkAction::WriteAndReport {
                len: n,
                downloaded: final(p).downloaded,
                total: final(p).total,
            }),
{
    if n == 0 {
        ChunkAction::Finish
    } else {
        p.downloaded = p.downloaded + n as u64;
        ChunkAction::WriteAndReport { len: n, downloaded: p.downloaded, total: p.total }
    }
}

} // verus!
