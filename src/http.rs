//! Building a `hyper::Request` from a request description, and turning what
//! the host got back into an [`Outcome`].
use vstd::prelude::*;
use hyper::http::Request;
use hyper::Body;
use crate::capture::Outcome;
use crate::request::{pairs_view, RequestSpec, RequestView};

verus! {

#[verifier::external_type_specification]
#[verifier::external_body]
#[verifier::reject_recursive_types(T)]
pub struct ExRequest<T>(hyper::http::Request<T>);

#[verifier::external_type_specification]
#[verifier::external_body]
pub struct ExBody(hyper::Body);

/// The string form (`Display`) of the URI that http's parser makes of a
/// string; none where the parser refuses it.
pub uninterp spec fn uri_form(s: Seq<char>) -> Option<Seq<char>>;

/// The method of a request, as `Method::as_str` gives it.
pub uninterp spec fn request_method(r: Request<Body>) -> Seq<char>;

/// The URI of a request, in its string form.
pub uninterp spec fn request_uri(r: Request<Body>) -> Seq<char>;

/// The headers of a request: each (lower case) name, with its values in the
/// order they were appended.
pub uninterp spec fn request_headers(r: Request<Body>) -> Map<Seq<char>, Seq<Seq<char>>>;

/// The number of header values a request holds, over all names.
pub uninterp spec fn request_header_count(r: Request<Body>) -> nat;

/// The bytes of a request's body.
pub uninterp spec fn request_body(r: Request<Body>) -> Seq<u8>;

/// A character of an HTTP method token.
pub open spec fn is_method_char(c: char) -> bool {
    ('0' <= c <= '9') || ('A' <= c <= 'Z') || ('a' <= c <= 'z') || c == '!' || c == '*' || c == '+'
        || c == '-' || c == '.' || c == '^' || c == '_' || c == '`' || c == '|' || c == '~'
}

/// A method is a non-empty string of method characters.
pub open spec fn method_accepted(m: Seq<char>) -> bool {
    m.len() > 0 && forall|i: int| 0 <= i < m.len() ==> is_method_char(#[trigger] m[i])
}

/// A character of a header name (upper case letters stand for lower case ones).
pub open spec fn is_header_name_char(c: char) -> bool {
    is_method_char(c) || c == '"' || c == '#' || c == '$' || c == '%' || c == '&' || c == '\''
}

/// A header name is a string of header name characters, of length 1 to 65535.
pub open spec fn header_name_accepted(n: Seq<char>) -> bool {
    0 < n.len() <= 65535 && forall|i: int| 0 <= i < n.len() ==> is_header_name_char(#[trigger] n[i])
}

/// A character of a header value: a tab, or anything from a space up but DEL.
pub open spec fn is_header_value_char(c: char) -> bool {
    c == '\t' || (' ' <= c && c != '\x7f')
}

/// A header value holds header value characters only.
pub open spec fn header_value_accepted(v: Seq<char>) -> bool {
    forall|i: int| 0 <= i < v.len() ==> is_header_value_char(#[trigger] v[i])
}

/// A character in lower case, where it is an ASCII capital.
pub open spec fn ascii_lower(c: char) -> char {
    if 'A' <= c <= 'Z' { ((c as u32) + 32) as char } else { c }
}

/// A header name as the request keeps it: in lower case.
pub open spec fn lower_name(n: Seq<char>) -> Seq<char> {
    n.map_values(|c: char| ascii_lower(c))
}

/// The values held under a name (none where the name is absent).
pub open spec fn values_of(m: Map<Seq<char>, Seq<Seq<char>>>, name: Seq<char>) -> Seq<Seq<char>> {
    if m.contains_key(name) { m[name] } else { Seq::empty() }
}

/// Headers once `value` is appended under `name`.
pub open spec fn appended(m: Map<Seq<char>, Seq<Seq<char>>>, name: Seq<char>, value: Seq<char>) -> Map<Seq<char>, Seq<Seq<char>>> {
    m.insert(lower_name(name), values_of(m, lower_name(name)).push(value))
}

/// The headers of the first `n` pairs, appended in order to no headers.
pub open spec fn header_map_upto(hs: Seq<(Seq<char>, Seq<char>)>, n: int) -> Map<Seq<char>, Seq<Seq<char>>>
    decreases n,
{
    if n <= 0 || n > hs.len() {
        Map::empty()
    } else {
        appended(header_map_upto(hs, n - 1), hs[n - 1].0, hs[n - 1].1)
    }
}

/// What appending one header came to.
pub enum HeaderStep {
    Added,
    BadName,
    BadValue,
    Full,
}

/// Relies on `http::Request::new` with `hyper::Body::from` on the bytes: a
/// `GET` request for `/`, with no headers and with that body.
#[verifier::external_body]
fn new_request(body: Vec<u8>) -> (r: Request<Body>)
    ensures
        request_method(r) == "GET"@,
        request_uri(r) == "/"@,
        request_headers(r).dom() == Set::<Seq<char>>::empty(),
        request_header_count(r) == 0,
        request_body(r) == body@,
{
    hyper::http::Request::new(hyper::Body::from(body))
}

/// Relies on `http::Request::uri_mut`, with the URI converted by
/// `Uri::try_from(&str)`: sets the URI where it parses, else changes nothing.
#[verifier::external_body]
fn set_uri(req: &mut Request<Body>, uri: &str) -> (ok: bool)
    ensures
        ok == uri_form(uri@) is Some,
        ok ==> request_uri(*final(req)) == uri_form(uri@).unwrap(),
        !ok ==> *final(req) == *old(req),
        request_method(*final(req)) == request_method(*old(req)),
        request_headers(*final(req)) == request_headers(*old(req)),
        request_header_count(*final(req)) == request_header_count(*old(req)),
        request_body(*final(req)) == request_body(*old(req)),
{
    match hyper::http::Uri::try_from(uri) {
        Ok(u) => {
            *req.uri_mut() = u;
            true
        },
        Err(_) => false,
    }
}

/// Relies on `http::Request::method_mut`, with the method converted by
/// `Method::try_from(&str)` (`Method::from_bytes`: each byte must have a
/// non-zero entry in its token table): sets the method where it is a token,
/// else changes nothing.
#[verifier::external_body]
fn set_method(req: &mut Request<Body>, method: &str) -> (ok: bool)
    ensures
        ok == method_accepted(method@),
        ok ==> request_method(*final(req)) == method@,
        !ok ==> *final(req) == *old(req),
        request_uri(*final(req)) == request_uri(*old(req)),
        request_headers(*final(req)) == request_headers(*old(req)),
        request_header_count(*final(req)) == request_header_count(*old(req)),
        request_body(*final(req)) == request_body(*old(req)),
{
    match hyper::http::Method::try_from(method) {
        Ok(m) => {
            *req.method_mut() = m;
            true
        },
        Err(_) => false,
    }
}

/// Relies on `http::HeaderMap::try_append` on the request's headers, with the
/// name converted by `HeaderName::try_from(&str)` (1 to 65535 bytes, each with
/// a non-zero entry in its character table, capitals made lower case) and the
/// value by `HeaderValue::try_from(&str)` (each byte a tab, or at least 32 and
/// not 127). The map refuses a value only past `MAX_SIZE` (32768) entries.
#[verifier::external_body]
fn append_header(req: &mut Request<Body>, name: &str, value: &str) -> (r: HeaderStep)
    ensures
        (r == HeaderStep::BadName) == !header_name_accepted(name@),
        (r == HeaderStep::BadValue) == (header_name_accepted(name@) && !header_value_accepted(value@)),
        header_name_accepted(name@) && header_value_accepted(value@) && request_header_count(*old(req)) < 3000
            ==> r == HeaderStep::Added,
        r == HeaderStep::Added ==> request_headers(*final(req)) == appended(request_headers(*old(req)), name@, value@),
        r == HeaderStep::Added ==> request_header_count(*final(req)) == request_header_count(*old(req)) + 1,
        request_method(*final(req)) == request_method(*old(req)),
        request_uri(*final(req)) == request_uri(*old(req)),
        request_body(*final(req)) == request_body(*old(req)),
{
    let n = match hyper::http::header::HeaderName::try_from(name) {
        Ok(n) => n,
        Err(_) => { return HeaderStep::BadName; },
    };
    let v = match hyper::http::header::HeaderValue::try_from(value) {
        Ok(v) => v,
        Err(_) => { return HeaderStep::BadValue; },
    };
    match req.headers_mut().try_append(n, v) {
        Ok(_) => HeaderStep::Added,
        Err(_) => HeaderStep::Full,
    }
}

/// Why a request description could not become a request.
#[derive(PartialEq, Eq, Structural, Debug)]
pub enum AssemblyError {
    /// The URI does not parse.
    Uri,
    /// The method is not a method token.
    Method,
    /// The name of the header at this index is not a header name.
    HeaderName(usize),
    /// The value of the header at this index is not a header value.
    HeaderValue(usize),
    /// The request's header map is full.
    Rejected,
}

/// The first header at or after `i` whose name or value is refused.
pub open spec fn header_error_from(hs: Seq<(Seq<char>, Seq<char>)>, i: int) -> Option<AssemblyError>
    decreases hs.len() - i,
{
    if i < 0 || i >= hs.len() {
        None
    } else if !header_name_accepted(hs[i].0) {
        Some(AssemblyError::HeaderName(i as usize))
    } else if !header_value_accepted(hs[i].1) {
        Some(AssemblyError::HeaderValue(i as usize))
    } else {
        header_error_from(hs, i + 1)
    }
}

/// The first part of a request that is refused: the URI, the method, then
/// each header in order.
pub open spec fn assembly_error(r: RequestView) -> Option<AssemblyError> {
    if uri_form(r.uri) is None {
        Some(AssemblyError::Uri)
    } else if !method_accepted(r.method) {
        Some(AssemblyError::Method)
    } else {
        header_error_from(r.headers, 0)
    }
}

/// The request carries what `spec` describes: its method, the parsed form of
/// its URI, its headers (each name's values in order) and its body.
pub open spec fn carries(req: Request<Body>, spec: RequestView) -> bool {
    &&& request_method(req) == spec.method
    &&& Some(request_uri(req)) == uri_form(spec.uri)
    &&& request_headers(req) == header_map_upto(spec.headers, spec.headers.len() as int)
    &&& request_body(req) == spec.body
}

/// Builds the hyper request that `spec` describes: its URI, its method, each
/// of its headers in order, and its body. The first refused part decides the
/// error. Where every part is accepted the request is built, unless its
/// header map fills up, which fewer than 3000 headers never make it do.
pub fn build_request(spec: RequestSpec) -> (r: Result<Request<Body>, AssemblyError>)
    ensures
        match assembly_error(spec@) {
            Some(e) => r == Err::<Request<Body>, AssemblyError>(e),
            None => (spec@.headers.len() < 3000 ==> r is Ok)
                && (r is Ok || r == Err::<Request<Body>, AssemblyError>(AssemblyError::Rejected)),
        },
        match r {
            Ok(req) => carries(req, spec@),
            Err(_) => true,
        },
{
    let ghost sv = spec@;
    let RequestSpec { uri, method, headers, body } = spec;
    let mut req = new_request(body);
    if !set_uri(&mut req, uri.as_str()) {
        return Err(AssemblyError::Uri);
    }
    if !set_method(&mut req, method.as_str()) {
        return Err(AssemblyError::Method);
    }
    let mut full = false;
    let mut i: usize = 0;
    while i < headers.len()
        invariant
            i <= headers.len(),
            sv == spec@,
            sv.headers == pairs_view(headers),
            assembly_error(sv) == header_error_from(sv.headers, i as int),
            full ==> sv.headers.len() >= 3000,
            !full ==> request_method(req) == sv.method,
            !full ==> Some(request_uri(req)) == uri_form(sv.uri),
            !full ==> request_body(req) == sv.body,
            !full ==> request_headers(req) == header_map_upto(sv.headers, i as int),
            !full ==> request_header_count(req) == i,
        decreases headers.len() - i,
    {
        let (name, value) = &headers[i];
        assert(sv.headers[i as int] == (name@, value@));
        match append_header(&mut req, name.as_str(), value.as_str()) {
            HeaderStep::Added => {},
            HeaderStep::BadName => { return Err(AssemblyError::HeaderName(i)); },
            HeaderStep::BadValue => { return Err(AssemblyError::HeaderValue(i)); },
            HeaderStep::Full => { full = true; },
        }
        i += 1;
    }
    if full {
        return Err(AssemblyError::Rejected);
    }
    Ok(req)
}

/// Why the host got no response body.
pub enum ReplyError {
    /// The client could not send the request.
    Transport,
    /// The response body could not be read in full.
    Body,
}

/// The outcome of a sent request, from what the host got back.
pub fn reply_outcome(reply: Result<Vec<u8>, ReplyError>) -> (r: Outcome)
    ensures
        match reply {
            Ok(b) => r == Outcome::Received(b),
            Err(ReplyError::Transport) => r == Outcome::TransportFailed,
            Err(ReplyError::Body) => r == Outcome::CaptureFailed,
        },
{
    match reply {
        Ok(b) => Outcome::Received(b),
        Err(ReplyError::Transport) => Outcome::TransportFailed,
        Err(ReplyError::Body) => Outcome::CaptureFailed,
    }
}

} // verus!
