//! Inbound request responder.
//!
//! Besides shipping tags outward, the device answers one inbound HTTP
//! request per connection with a fixed-shape plain-text page that echoes
//! the request path.  Request parsing is httparse's job; everything from
//! the parsed path to the final response bytes — the body, the
//! `Content-Length` arithmetic and the header block — is built and
//! verified here.  The accepting socket itself lives with the task runtime
//! outside this crate.

use crate::logbuf::push_bytes;
use crate::text::spec_dec_bytes;
use crate::text::u64_to_dec_bytes;
use vstd::prelude::*;
use vstd::string::StringSliceAdditionalSpecFns;
use vstd::utf8::encode_utf8;

verus! {

/// What httparse finds in a request buffer: `None` when the bytes are not
/// a well-formed request prefix, otherwise the request path as soon as the
/// request line has been read (`Some(None)` for a partial request that has
/// not reached the path yet).  httparse parses with its default
/// configuration, so this is a function of the bytes alone.
pub uninterp spec fn parsed_request_path(buf: Seq<u8>) -> Option<Option<Seq<char>>>;

/// Relies on `httparse::Request::parse` with default configuration and a
/// fixed sixteen-entry header table: the outcome is deterministic in the
/// request bytes, and `Request::path` is the parsed request path.
#[verifier::external_body]
fn parse_request_path<'b>(buf: &'b [u8]) -> (r: Option<Option<&'b str>>)
    ensures
        (r is Some) == (parsed_request_path(buf@) is Some),
        r matches Some(p) ==> (match p {
            Some(s) => parsed_request_path(buf@) == Some(Some(s@)),
            None => parsed_request_path(buf@) == Some(Option::<Seq<char>>::None),
        }),
{
    let mut headers = [httparse::EMPTY_HEADER; 16];
    let mut req = httparse::Request::new(&mut headers);
    match req.parse(buf) {
        Ok(_) => Some(req.path),
        Err(_) => None,
    }
}

/// The request path as the response body spells it: the path in quotes
/// when one was parsed, the word `None` when the request line was still
/// incomplete.
pub open spec fn spec_path_note(path: Option<Seq<char>>) -> Seq<u8> {
    match path {
        Some(p) => ("Some(\"").spec_bytes() + encode_utf8(p) + ("\")").spec_bytes(),
        None => ("None").spec_bytes(),
    }
}

/// Body of the response page.
pub open spec fn spec_response_body(path: Option<Seq<char>>) -> Seq<u8> {
    ("You accessed ").spec_bytes() + spec_path_note(path) + ("!").spec_bytes()
}

/// The full response: a `200 OK` status line, a plain-text content type, a
/// `Content-Length` that counts exactly the body bytes, a close
/// directive, and the body.
pub open spec fn spec_response(path: Option<Seq<char>>) -> Seq<u8> {
    ("HTTP/1.1 200 OK\r\nContent-Type: text/plain; charset=utf-8\r\nContent-Length: ").spec_bytes()
        + spec_dec_bytes(spec_response_body(path).len()) + (
    "\r\nConnection: close\r\n\r\n").spec_bytes() + spec_response_body(path)
}

/// The value of an `Option<&str>` as the specifications see it.
pub open spec fn path_view(path: Option<&str>) -> Option<Seq<char>> {
    match path {
        Some(p) => Some(p@),
        None => None,
    }
}

/// Renders the response page for a parsed request path.
pub fn render_path_response(path: Option<&str>) -> (v: Vec<u8>)
    ensures
        v@ == spec_response(path_view(path)),
{
    let mut body: Vec<u8> = Vec::new();
    push_bytes(&mut body, "You accessed ".as_bytes());
    match path {
        Some(p) => {
            push_bytes(&mut body, "Some(\"".as_bytes());
            push_bytes(&mut body, p.as_bytes());
            push_bytes(&mut body, "\")".as_bytes());
        },
        None => {
            push_bytes(&mut body, "None".as_bytes());
        },
    }
    push_bytes(&mut body, "!".as_bytes());
    proof {
        assert(body@ =~= spec_response_body(path_view(path)));
    }
    let mut v: Vec<u8> = Vec::new();
    push_bytes(
        &mut v,
        "HTTP/1.1 200 OK\r\nContent-Type: text/plain; charset=utf-8\r\nContent-Length: ".as_bytes(),
    );
    let mut length = u64_to_dec_bytes(body.len() as u64);
    v.append(&mut length);
    push_bytes(&mut v, "\r\nConnection: close\r\n\r\n".as_bytes());
    let mut tail = body;
    v.append(&mut tail);
    proof {
        assert(v@ =~= spec_response(path_view(path)));
    }
    v
}

/// Answers one request buffer: the response page echoing the request path,
/// or `None` — and no response at all — when the bytes are not a
/// well-formed request prefix.
pub fn handle_request(buf: &[u8]) -> (r: Option<Vec<u8>>)
    ensures
        (r is Some) == (parsed_request_path(buf@) is Some),
        r matches Some(v) ==> Some(v@) == (match parsed_request_path(buf@) {
            Some(path) => Some(spec_response(path)),
            None => None,
        }),
{
    match parse_request_path(buf) {
        Some(path) => Some(render_path_response(path)),
        None => None,
    }
}

} // verus!
