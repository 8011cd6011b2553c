//! The request router: given one request's method, path, headers and
//! body, produce exactly one reply.
//!
//! Dispatch: `GET /` serves the static form page; `POST /` parses the
//! body and encodes the payload it carries; `GET` on any other path
//! encodes the path tail (already percent-decoded by the routing layer);
//! every other method is refused with status 405.

use vstd::prelude::*;
use crate::OutputFormat;
use crate::bytes::{copy_range, lossy_utf8, spec_unescape, unescape, utf8_lossy};
use crate::form::{form_value, spec_form_value};
use crate::media::{classify, spec_classify, ContentTypeClass};
use crate::qr::{encode, spec_encode, EncodedImage};

verus! {

pub const SLASH: u8 = 47;

/// The request body ceiling: 2 MiB.
pub const MAX_BODY_BYTES: usize = 2 * 1024 * 1024;

/// The HTTP methods the router distinguishes; everything beyond the
/// closed set is `Other`.
#[derive(Clone, Copy, PartialEq, Eq, Structural, Debug)]
pub enum Method {
    Get,
    Post,
    Put,
    Delete,
    Patch,
    Other,
}

/// One reply: the static page, an encoded image (both status 200), or a
/// failure status code.
pub enum Reply {
    Page(String),
    Image(EncodedImage),
    Failure(u16),
}

/// The handler type the service mounts; it owns the static index page.
#[derive(Clone)]
pub struct Server;

pub open spec fn spec_index_page() -> Seq<char> {
    "<!DOCTYPE html><html><head><title>qqr</title></head><body><form style=\"display:flex;flex-direction:column;flex;align-items:center;justify-content:center;width:100vw;height:100vh;row-gap:0.25em;\" action=\"\" method=\"post\"><textarea name=\"input\" style=\"width:50vw\"></textarea><input type=\"submit\" style=\"width: 25vw\"/></form></body></html>"@
}

impl Server {
    /// The static index page: an HTML form that POSTs its text to `/`.
    pub fn index() -> (r: &'static str)
        ensures
            r@ == spec_index_page(),
    {
        "<!DOCTYPE html><html><head><title>qqr</title></head><body><form style=\"display:flex;flex-direction:column;flex;align-items:center;justify-content:center;width:100vw;height:100vh;row-gap:0.25em;\" action=\"\" method=\"post\"><textarea name=\"input\" style=\"width:50vw\"></textarea><input type=\"submit\" style=\"width: 25vw\"/></form></body></html>"
    }
}

/// The bytes of the `Accept` value that selects SVG: `image/svg+xml`.
pub open spec fn svg_accept() -> Seq<u8> {
    seq![105u8, 109u8, 97u8, 103u8, 101u8, 47u8, 115u8, 118u8, 103u8, 43u8, 120u8, 109u8, 108u8]
}

/// The format a request's `Accept` values select: SVG when one of them
/// is exactly `image/svg+xml`, PNG otherwise.
pub open spec fn spec_format(accept: Seq<Vec<u8>>) -> OutputFormat {
    if exists|i: int| 0 <= i < accept.len() && accept[i]@ == svg_accept() {
        OutputFormat::SVG
    } else {
        OutputFormat::PNG
    }
}

/// Negotiates the output format from the request's `Accept` values.
pub fn get_format_from_accept(accept: &Vec<Vec<u8>>) -> (r: OutputFormat)
    ensures
        r == spec_format(accept@),
{
    let pat: Vec<u8> = vec![105u8, 109u8, 97u8, 103u8, 101u8, 47u8, 115u8, 118u8, 103u8, 43u8,
        120u8, 109u8, 108u8];
    proof {
        assert(pat@ =~= svg_accept());
    }
    let mut i: usize = 0;
    while i < accept.len()
        invariant
            i <= accept@.len(),
            pat@ == svg_accept(),
            forall|j: int| 0 <= j < i ==> accept@[j]@ != svg_accept(),
        decreases accept@.len() - i,
    {
        if crate::bytes::bytes_equal(&accept[i], &pat) {
            return OutputFormat::SVG;
        }
        i = i + 1;
    }
    OutputFormat::PNG
}

pub open spec fn opt_bytes_view(c: Option<Vec<u8>>) -> Option<Seq<u8>> {
    match c {
        Option::Some(v) => Option::Some(v@),
        Option::None => Option::None,
    }
}

/// What parsing a `POST /` body yields: the payload to encode, or the
/// failure status. An oversized body is refused with 413 whatever the
/// content type; a missing content type with 400; a form body without an
/// `input` field with 400; an unrecognized content type with 415.
pub open spec fn spec_parse_post(ct: Option<Seq<u8>>, body: Seq<u8>) -> Result<Seq<char>, u16> {
    if body.len() > MAX_BODY_BYTES {
        Err(413u16)
    } else {
        match ct {
            Option::None => Err(400u16),
            Option::Some(c) => match spec_classify(c) {
                ContentTypeClass::Form => match spec_form_value(body, 0) {
                    Option::Some(v) => Ok(lossy_utf8(spec_unescape(v))),
                    Option::None => Err(400u16),
                },
                ContentTypeClass::Plain => Ok(lossy_utf8(body)),
                ContentTypeClass::Other => Err(415u16),
            },
        }
    }
}

/// Extracts the payload of a `POST /` request from its declared content
/// type and its body, or says with which status the request is refused.
///
/// Bytes that are not valid UTF-8 are replaced, never rejected: the one
/// decoding policy holds for plain-text bodies and form field values alike.
pub fn parse_post(content_type: &Option<Vec<u8>>, body: &Vec<u8>) -> (r: Result<String, u16>)
    ensures
        r is Ok <==> spec_parse_post(opt_bytes_view(*content_type), body@) is Ok,
        r is Ok ==> r->Ok_0@ == spec_parse_post(opt_bytes_view(*content_type), body@)->Ok_0,
        r is Err ==> r->Err_0 == spec_parse_post(opt_bytes_view(*content_type), body@)->Err_0,
        body@.len() > MAX_BODY_BYTES ==> r == Err::<String, u16>(413u16),
        body@.len() <= MAX_BODY_BYTES && ((*content_type) matches Option::Some(c)
            && spec_classify(c@) is Other) ==> r == Err::<String, u16>(415u16),
{
    if body.len() > MAX_BODY_BYTES {
        return Err(413);
    }
    match content_type {
        Option::None => Err(400),
        Option::Some(c) => match classify(c) {
            ContentTypeClass::Form => match form_value(body) {
                Option::Some(v) => {
                    let decoded = unescape(&v);
                    Ok(utf8_lossy(&decoded))
                },
                Option::None => Err(400),
            },
            ContentTypeClass::Plain => Ok(utf8_lossy(body)),
            ContentTypeClass::Other => Err(415),
        },
    }
}

/// The path that serves the index page.
pub open spec fn root_path() -> Seq<u8> {
    seq![47u8]
}

/// A path with its leading slash stripped.
pub open spec fn spec_tail(p: Seq<u8>) -> Seq<u8> {
    if p.len() > 0 && p[0] == SLASH {
        p.skip(1)
    } else {
        p
    }
}

/// Whether `r` is the reply that encoding `payload` in format `f` owes:
/// the image on success, status 500 on an encoder failure.
pub open spec fn reply_for_encode(r: Reply, payload: Seq<char>, f: OutputFormat) -> bool {
    match spec_encode(payload, f) {
        Ok(b) => r matches Reply::Image(img) && img.bytes@ == b && img.format == f,
        Err(_) => r matches Reply::Failure(s) && s == 500u16,
    }
}

/// Encodes a payload and wraps the outcome as a reply.
fn encode_reply(payload: &String, format: OutputFormat) -> (r: Reply)
    ensures
        reply_for_encode(r, payload@, format),
{
    match encode(payload.as_str(), format) {
        Ok(img) => Reply::Image(img),
        Err(_) => Reply::Failure(500),
    }
}

/// Routes one request to its reply.
///
/// `path` is the request path, percent-decoded by the routing layer;
/// `accept` holds the request's `Accept` header values; `content_type`
/// and `body` are only read for `POST /`.
pub fn handle(
    method: Method,
    path: &Vec<u8>,
    accept: &Vec<Vec<u8>>,
    content_type: &Option<Vec<u8>>,
    body: &Vec<u8>,
) -> (r: Reply)
    ensures
        path@ == root_path() && method is Get ==> (r matches Reply::Page(h) && h@
            == spec_index_page()),
        path@ == root_path() && method is Post ==> (match spec_parse_post(
            opt_bytes_view(*content_type),
            body@,
        ) {
            Ok(p) => reply_for_encode(r, p, spec_format(accept@)),
            Err(s) => r matches Reply::Failure(f) && f == s,
        }),
        path@ != root_path() && method is Get ==> reply_for_encode(
            r,
            lossy_utf8(spec_tail(path@)),
            spec_format(accept@),
        ),
        path@ != root_path() && method is Post ==> (r matches Reply::Failure(s) && s == 405u16),
        !(method is Get) && !(method is Post) ==> (r matches Reply::Failure(s) && s == 405u16),
{
    let is_root = path.len() == 1 && path[0] == SLASH;
    proof {
        if is_root {
            assert(path@ =~= root_path());
        } else {
            assert(path@ != root_path());
        }
    }
    match method {
        Method::Get => {
            if is_root {
                Reply::Page(Server::index().to_owned())
            } else {
                let tail = if path.len() > 0 && path[0] == SLASH {
                    copy_range(path, 1, path.len())
                } else {
                    copy_range(path, 0, path.len())
                };
                proof {
                    assert(tail@ =~= spec_tail(path@));
                }
                let payload = utf8_lossy(&tail);
                encode_reply(&payload, get_format_from_accept(accept))
            }
        },
        Method::Post => {
            if is_root {
                match parse_post(content_type, body) {
                    Ok(payload) => encode_reply(&payload, get_format_from_accept(accept)),
                    Err(status) => Reply::Failure(status),
                }
            } else {
                Reply::Failure(405)
            }
        },
        _ => Reply::Failure(405),
    }
}

} // verus!
