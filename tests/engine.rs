use lifec_hyper::capture::{capture, response_body, Outcome};
use lifec_hyper::http::{build_request, reply_outcome, AssemblyError, ReplyError};
use lifec_hyper::request::{assemble, prepare, resolve_headers};
use lifec_hyper::store::{AttrValue, Attribute, Block, Store};
use lifec_hyper::HyperContext;

fn text(name: &str, value: &str) -> Attribute {
    Attribute { name: name.to_string(), value: AttrValue::Text(value.to_string()) }
}

fn symbol(name: &str, value: &str) -> Attribute {
    Attribute { name: name.to_string(), value: AttrValue::Symbol(value.to_string()) }
}

fn binary(name: &str, value: &[u8]) -> Attribute {
    Attribute { name: name.to_string(), value: AttrValue::Binary(value.to_vec()) }
}

fn store_of(local: Vec<Attribute>, outer: Vec<Attribute>) -> Store {
    Store { scopes: vec![local, outer], blocks: Vec::new() }
}

fn snapshot(s: &Store) -> String {
    let mut out = String::new();
    for scope in &s.scopes {
        for a in scope {
            out.push_str(&format!("{}={:?};", a.name, value_text(&a.value)));
        }
        out.push('|');
    }
    for b in &s.blocks {
        out.push_str(&b.name);
        for a in &b.attrs {
            out.push_str(&format!("{}={:?};", a.name, value_text(&a.value)));
        }
        out.push('|');
    }
    out
}

fn value_text(v: &AttrValue) -> String {
    match v {
        AttrValue::Text(s) => format!("t:{s}"),
        AttrValue::Symbol(s) => format!("s:{s}"),
        AttrValue::Binary(b) => format!("b:{b:?}"),
    }
}

#[test]
fn plugin_symbol_and_description() {
    assert_eq!(HyperContext::symbol(), "request");
    assert_eq!(HyperContext::description(), "Creates a http request, and sends a request with a hyper client. HTTPS only");
}

#[test]
fn no_client_sends_nothing_and_keeps_store() {
    let mut s = store_of(vec![text("request", "https://example.test/ping")], vec![]);
    let before = snapshot(&s);
    assert!(prepare(&s, false).is_none());
    capture(&mut s, Outcome::Skipped);
    assert_eq!(snapshot(&s), before);
}

#[test]
fn no_uri_sends_nothing_and_keeps_store() {
    let mut s = store_of(vec![text("method", "POST"), binary("body", b"x")], vec![text("other", "y")]);
    let before = snapshot(&s);
    assert!(prepare(&s, true).is_none());
    assert!(assemble(&s).is_none());
    capture(&mut s, Outcome::Skipped);
    assert_eq!(snapshot(&s), before);
}

#[test]
fn header_resolution_drops_unresolved() {
    let s = store_of(
        vec![text("uri", "https://example.test/"), symbol("header", "Accept"), symbol("header", "X-Foo"), text("Accept", "text/json")],
        vec![],
    );
    let h = resolve_headers(&s);
    assert_eq!(h, vec![("Accept".to_string(), "text/json".to_string())]);
    let r = assemble(&s).unwrap();
    assert_eq!(r.headers.len(), 1);
}

#[test]
fn header_declared_in_outer_scope_resolves_locally() {
    let s = store_of(vec![text("Accept", "text/json")], vec![text("uri", "https://example.test/"), symbol("header", "Accept")]);
    assert_eq!(resolve_headers(&s), vec![("Accept".to_string(), "text/json".to_string())]);
}

#[test]
fn no_header_declarations_give_no_headers() {
    let s = store_of(vec![text("request", "https://example.test/")], vec![]);
    assert!(assemble(&s).unwrap().headers.is_empty());
}

#[test]
fn default_method_is_get() {
    let s = store_of(vec![], vec![text("uri", "https://example.test/")]);
    assert_eq!(assemble(&s).unwrap().method, "GET");
}

#[test]
fn local_method_is_used() {
    let s = store_of(vec![text("method", "POST")], vec![text("uri", "https://example.test/")]);
    assert_eq!(assemble(&s).unwrap().method, "POST");
}

#[test]
fn body_passthrough() {
    let s = store_of(vec![text("request", "https://example.test/"), binary("body", b"hello")], vec![]);
    assert_eq!(assemble(&s).unwrap().body, b"hello".to_vec());
}

#[test]
fn empty_body_default() {
    let s = store_of(vec![text("request", "https://example.test/")], vec![]);
    assert_eq!(assemble(&s).unwrap().body.len(), 0);
}

#[test]
fn request_attribute_wins_over_uri() {
    let s = store_of(vec![text("request", "https://a.test/")], vec![text("uri", "https://b.test/")]);
    assert_eq!(assemble(&s).unwrap().uri, "https://a.test/");
}

#[test]
fn local_uri_wins_over_outer_uri() {
    let s = store_of(vec![text("uri", "https://near.test/")], vec![text("uri", "https://far.test/")]);
    assert_eq!(assemble(&s).unwrap().uri, "https://near.test/");
}

#[test]
fn success_path_end_to_end() {
    let mut s = store_of(vec![text("request", "https://example.test/ping")], vec![]);
    let spec = prepare(&s, true).unwrap();
    assert_eq!(spec.uri, "https://example.test/ping");
    assert!(build_request(spec).is_ok());
    capture(&mut s, reply_outcome(Ok(b"pong".to_vec())));
    assert_eq!(response_body(&s), Some(b"pong".to_vec()));
    assert_eq!(s.scopes[0].len(), 1);
}

#[test]
fn failure_paths_keep_store() {
    let mut s = store_of(vec![text("request", "https://example.test/ping")], vec![]);
    s.blocks.push(Block { name: "response".to_string(), attrs: vec![binary("body", b"old")] });
    let before = snapshot(&s);
    capture(&mut s, reply_outcome(Err(ReplyError::Transport)));
    assert_eq!(snapshot(&s), before);
    capture(&mut s, reply_outcome(Err(ReplyError::Body)));
    assert_eq!(snapshot(&s), before);
    capture(&mut s, Outcome::AssemblyFailed);
    assert_eq!(snapshot(&s), before);
}

#[test]
fn repeated_captures_keep_one_body() {
    let mut s = store_of(vec![], vec![]);
    capture(&mut s, Outcome::Received(b"one".to_vec()));
    capture(&mut s, Outcome::Received(b"two".to_vec()));
    assert_eq!(s.blocks.len(), 1);
    assert_eq!(s.blocks[0].attrs.iter().filter(|a| a.name == "body").count(), 1);
    assert_eq!(response_body(&s), Some(b"two".to_vec()));
}

#[test]
fn capture_keeps_other_response_attributes() {
    let mut s = store_of(vec![], vec![]);
    s.blocks.push(Block { name: "response".to_string(), attrs: vec![text("status", "ok"), binary("body", b"a"), binary("body", b"b")] });
    capture(&mut s, Outcome::Received(b"c".to_vec()));
    assert_eq!(s.blocks[0].attrs.len(), 2);
    assert_eq!(s.blocks[0].attrs[0].name, "status");
    assert_eq!(response_body(&s), Some(b"c".to_vec()));
}

#[test]
fn malformed_uri_is_an_assembly_error() {
    let s = store_of(vec![text("request", "not a uri")], vec![]);
    assert!(matches!(build_request(assemble(&s).unwrap()), Err(AssemblyError::Uri)));
}

#[test]
fn malformed_method_is_an_assembly_error() {
    let s = store_of(vec![text("request", "https://example.test/"), text("method", "BAD METHOD")], vec![]);
    assert!(matches!(build_request(assemble(&s).unwrap()), Err(AssemblyError::Method)));
}

#[test]
fn built_request_carries_method_and_headers() {
    let s = store_of(
        vec![text("request", "https://example.test/x"), text("method", "PUT"), symbol("header", "accept"), text("accept", "text/json")],
        vec![],
    );
    let req = build_request(assemble(&s).unwrap()).ok().unwrap();
    assert_eq!(req.method().as_str(), "PUT");
    assert_eq!(req.uri().to_string(), "https://example.test/x");
    assert_eq!(req.headers().get("accept").unwrap(), "text/json");
}

#[test]
fn declare_header_adds_local_symbol() {
    let mut s = Store::new();
    s.declare_header("Accept".to_string());
    s.scopes[0].push(text("Accept", "text/json"));
    s.scopes[0].push(text("uri", "https://example.test/"));
    assert_eq!(resolve_headers(&s), vec![("Accept".to_string(), "text/json".to_string())]);
}

#[test]
fn binary_attribute_is_not_read_as_text() {
    let s = store_of(vec![binary("request", b"https://x.test/")], vec![]);
    assert!(assemble(&s).is_none());
}

#[test]
fn malformed_header_name_is_reported_with_its_index() {
    let s = store_of(
        vec![text("request", "https://example.test/"), symbol("header", "Accept"), symbol("header", "Bad Name"), text("Accept", "a"), text("Bad Name", "b")],
        vec![],
    );
    assert!(matches!(build_request(assemble(&s).unwrap()), Err(AssemblyError::HeaderName(1))));
}

#[test]
fn malformed_header_value_is_reported_with_its_index() {
    let s = store_of(
        vec![text("request", "https://example.test/"), symbol("header", "X-Foo"), text("X-Foo", "line\nbreak")],
        vec![],
    );
    assert!(matches!(build_request(assemble(&s).unwrap()), Err(AssemblyError::HeaderValue(0))));
}

#[test]
fn uri_error_comes_before_method_error() {
    let s = store_of(vec![text("request", "not a uri"), text("method", "BAD METHOD")], vec![]);
    assert!(matches!(build_request(assemble(&s).unwrap()), Err(AssemblyError::Uri)));
}

#[test]
fn extension_method_and_tab_in_value_are_accepted() {
    let s = store_of(
        vec![text("request", "https://example.test/"), text("method", "PURGE"), symbol("header", "X-Tab"), text("X-Tab", "a\tb")],
        vec![],
    );
    let req = build_request(assemble(&s).unwrap()).ok().unwrap();
    assert_eq!(req.method().as_str(), "PURGE");
    assert_eq!(req.headers().get("x-tab").unwrap(), "a\tb");
}

#[test]
fn repeated_header_names_keep_their_values_in_order() {
    let s = store_of(
        vec![text("request", "https://example.test/"), symbol("header", "X-A"), symbol("header", "x-a"), text("X-A", "1"), text("x-a", "2")],
        vec![],
    );
    let req = build_request(assemble(&s).unwrap()).ok().unwrap();
    let values: Vec<&str> = req.headers().get_all("x-a").iter().map(|v| v.to_str().unwrap()).collect();
    assert_eq!(values, vec!["1", "2"]);
}

#[test]
fn built_uri_is_the_parsed_form() {
    let s = store_of(vec![text("request", "https://example.test")], vec![]);
    let req = build_request(assemble(&s).unwrap()).ok().unwrap();
    assert_eq!(req.uri().to_string(), "https://example.test/");
    assert_eq!(req.method().as_str(), "GET");
}
