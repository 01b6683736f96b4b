//! Request handling of the static file server: how a request target becomes a
//! path under the document root, and what is answered for it.
use vstd::prelude::*;
use crate::content_type::{get_mime_type, mime_type_of};
use crate::text::strip_prefix;

verus! {

/// What percent-decoding `s` as UTF-8 gives, or `None` where the decoded
/// bytes are not UTF-8.
pub uninterp spec fn url_decoded(s: Seq<char>) -> Option<Seq<char>>;

/// Relies on `urlencoding::decode`: percent-decodes `s`, failing where the
/// decoded bytes are not UTF-8; text without `%` comes back as it is.
#[verifier::external_body]
fn percent_decode(s: &str) -> (r: Option<String>)
    ensures
        match r {
            Some(d) => url_decoded(s@) == Some(d@),
            None => url_decoded(s@) is None,
        },
        (forall|i: int| 0 <= i < s@.len() ==> s@[i] != '%') ==> (r is Some && r->0@ == s@),
{
    match urlencoding::decode(s) {
        Ok(d) => Some(d.into_owned()),
        Err(_) => None,
    }
}

/// The request target after decoding, or the raw target where decoding fails.
pub open spec fn decoded_or_raw(raw: Seq<char>) -> Seq<char> {
    match url_decoded(raw) {
        Some(d) => d,
        None => raw,
    }
}

/// The path, relative to the document root, that a decoded target names: the
/// empty target and `/` name `index.html`; otherwise one leading `/` goes.
pub open spec fn relative_path_of(decoded: Seq<char>) -> Seq<char> {
    if decoded.len() == 0 || decoded == "/"@ {
        "index.html"@
    } else if decoded[0] == '/' {
        decoded.drop_first()
    } else {
        decoded
    }
}

/// The path, relative to the document root, that an already decoded target
/// names.
pub fn relative_path(decoded: &str) -> (r: String)
    ensures
        r@ == relative_path_of(decoded@),
{
    proof {
        reveal_strlit("/");
        assert("/"@ =~= seq!['/']);
    }
    if decoded.is_empty() {
        return "index.html".to_owned();
    }
    match strip_prefix(decoded, "/") {
        Some(rest) => {
            if rest.is_empty() {
                assert(decoded@ =~= "/"@);
                "index.html".to_owned()
            } else {
                assert(rest@ =~= decoded@.drop_first());
                assert(decoded@[0] == '/');
                assert(decoded@.len() >= 2);
                rest.to_owned()
            }
        },
        None => {
            assert(decoded@.subrange(0, 1) =~= seq![decoded@[0]]);
            assert(decoded@[0] != '/');
            assert(decoded@ != "/"@);
            decoded.to_owned()
        },
    }
}

/// The path, relative to the document root, that a raw request target names:
/// the target is percent-decoded, or kept raw where that fails, then resolved.
pub fn request_path(raw: &str) -> (r: String)
    ensures
        r@ == relative_path_of(decoded_or_raw(raw@)),
        (forall|i: int| 0 <= i < raw@.len() ==> raw@[i] != '%') ==> r@ == relative_path_of(raw@),
{
    match percent_decode(raw) {
        Some(d) => relative_path(d.as_str()),
        None => relative_path(raw),
    }
}

/// Requests for the empty target and for `/` are served exactly as a request
/// for `/index.html`, whatever entry document the manifest names.
pub proof fn root_requests_serve_index()
    ensures
        relative_path_of(""@) == "index.html"@,
        relative_path_of("/"@) == "index.html"@,
        relative_path_of("/index.html"@) == "index.html"@,
{
    reveal_strlit("");
    reveal_strlit("/");
    reveal_strlit("/index.html");
    reveal_strlit("index.html");
    assert("/index.html"@.drop_first() =~= "index.html"@);
}

/// One header of a response.
#[derive(Clone, Debug)]
pub struct Header {
    pub name: String,
    pub value: String,
}

/// A response of the file server.
#[derive(Clone, Debug)]
pub struct Response {
    pub status: u16,
    pub headers: Vec<Header>,
    pub body: Vec<u8>,
}

/// `h` is the header `name: value`.
pub open spec fn header_is(h: Header, name: Seq<char>, value: Seq<char>) -> bool {
    h.name@ == name && h.value@ == value
}

/// The body of every not-found response: `404 Not Found`.
pub open spec fn not_found_body() -> Seq<u8> {
    seq![52u8, 48u8, 52u8, 32u8, 78u8, 111u8, 116u8, 32u8, 70u8, 111u8, 117u8, 110u8, 100u8]
}

fn header(name: &str, value: &str) -> (r: Header)
    ensures
        r.name@ == name@,
        r.value@ == value@,
{
    Header { name: name.to_owned(), value: value.to_owned() }
}

/// The answer to a request for `path`, given what reading that file gave:
/// its bytes with their content type, or a plain-text 404 that holds nothing
/// of any file.
pub fn respond(path: &str, content: Option<Vec<u8>>) -> (r: Response)
    ensures
        match content {
            Some(bytes) => {
                &&& r.status == 200
                &&& r.body@ == bytes@
                &&& r.headers@.len() == 2
                &&& header_is(r.headers@[0], "Content-Type"@, mime_type_of(path@))
                &&& header_is(r.headers@[1], "Access-Control-Allow-Origin"@, "*"@)
            },
            None => {
                &&& r.status == 404
                &&& r.body@ == not_found_body()
                &&& r.headers@.len() == 1
                &&& header_is(r.headers@[0], "Content-Type"@, "text/plain; charset=UTF-8"@)
            },
        },
{
    match content {
        Some(bytes) => {
            let mut headers: Vec<Header> = Vec::new();
            headers.push(header("Content-Type", get_mime_type(path)));
            headers.push(header("Access-Control-Allow-Origin", "*"));
            Response { status: 200, headers, body: bytes }
        },
        None => {
            let mut headers: Vec<Header> = Vec::new();
            headers.push(header("Content-Type", "text/plain; charset=UTF-8"));
            let body: Vec<u8> = vec![52u8, 48u8, 52u8, 32u8, 78u8, 111u8, 116u8, 32u8, 70u8, 111u8, 117u8, 110u8, 100u8];
            Response { status: 404, headers, body }
        },
    }
}

} // verus!
