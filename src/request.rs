//! Request assembly: from an attribute store to a request description.
use vstd::prelude::*;
use crate::store::{
    find_binary, find_text, header_key, header_name, search_symbols_upto, search_text_from,
    strings_view, Store, StoreView, Val,
};

verus! {

/// A request ready to be handed to the HTTP request builder.
pub struct RequestSpec {
    pub uri: String,
    pub method: String,
    pub headers: Vec<(String, String)>,
    pub body: Vec<u8>,
}

/// The mathematical value of a [`RequestSpec`].
pub ghost struct RequestView {
    pub uri: Seq<char>,
    pub method: Seq<char>,
    pub headers: Seq<(Seq<char>, Seq<char>)>,
    pub body: Seq<u8>,
}

/// The views of a vector of string pairs.
pub open spec fn pairs_view(v: Vec<(String, String)>) -> Seq<(Seq<char>, Seq<char>)> {
    v@.map_values(|p: (String, String)| (p.0@, p.1@))
}

impl View for RequestSpec {
    type V = RequestView;

    open spec fn view(&self) -> RequestView {
        RequestView {
            uri: self.uri@,
            method: self.method@,
            headers: pairs_view(self.headers),
            body: self.body@,
        }
    }
}

/// The headers resolved from the first `n` declared names: each name whose
/// value is found in the local scope, with that value; the others are dropped.
pub open spec fn resolved_upto(
    names: Seq<Seq<char>>,
    local: Seq<(Seq<char>, Val)>,
    n: int,
) -> Seq<(Seq<char>, Seq<char>)>
    decreases n,
{
    if n <= 0 || n > names.len() {
        Seq::empty()
    } else {
        let prev = resolved_upto(names, local, n - 1);
        match find_text(local, names[n - 1]) {
            Some(v) => prev.push((names[n - 1], v)),
            None => prev,
        }
    }
}

/// The header names that a store declares, over every scope, local first.
pub open spec fn declared_headers(s: StoreView) -> Seq<Seq<char>> {
    search_symbols_upto(s.scopes, header_key(), s.scopes.len() as int)
}

/// The headers of a store: the declared names whose value the local scope holds.
pub open spec fn headers_of(s: StoreView) -> Seq<(Seq<char>, Seq<char>)> {
    resolved_upto(declared_headers(s), s.local(), declared_headers(s).len() as int)
}

/// The target URI: the local `request` attribute, else the searched `uri`.
pub open spec fn uri_of(s: StoreView) -> Option<Seq<char>> {
    match find_text(s.local(), "request"@) {
        Some(u) => Some(u),
        None => search_text_from(s.scopes, "uri"@, 0),
    }
}

/// The method: the local `method` attribute, else `GET`.
pub open spec fn method_of(s: StoreView) -> Seq<char> {
    match find_text(s.local(), "method"@) {
        Some(m) => m,
        None => "GET"@,
    }
}

/// The body: the local binary `body` attribute, else no bytes.
pub open spec fn body_of(s: StoreView) -> Seq<u8> {
    match find_binary(s.local(), "body"@) {
        Some(b) => b,
        None => Seq::empty(),
    }
}

/// The request a store describes; none where no URI resolves.
pub open spec fn assembled(s: StoreView) -> Option<RequestView> {
    match uri_of(s) {
        Some(u) => Some(
            RequestView { uri: u, method: method_of(s), headers: headers_of(s), body: body_of(s) },
        ),
        None => None,
    }
}

/// The request an invocation sends: none without a client, else the one the store describes.
pub open spec fn planned(s: StoreView, has_client: bool) -> Option<RequestView> {
    if has_client { assembled(s) } else { None }
}

/// The view of an optional request.
pub open spec fn request_opt_view(o: Option<RequestSpec>) -> Option<RequestView> {
    match o {
        Some(r) => Some(r@),
        None => None,
    }
}

/// Resolves the declared headers against the local scope.
pub fn resolve_headers(store: &Store) -> (r: Vec<(String, String)>)
    ensures
        pairs_view(r) == headers_of(store@),
{
    let names = store.search_symbols(&header_name());
    let ghost nv = strings_view(names);
    let mut out: Vec<(String, String)> = Vec::new();
    let mut i: usize = 0;
    proof {
        assert(pairs_view(out) =~= Seq::<(Seq<char>, Seq<char>)>::empty());
    }
    while i < names.len()
        invariant
            i <= names.len(),
            nv == strings_view(names),
            nv == declared_headers(store@),
            pairs_view(out) == resolved_upto(nv, store@.local(), i as int),
        decreases names.len() - i,
    {
        let name = &names[i];
        assert(nv[i as int] == name@);
        let ghost prev = pairs_view(out);
        match store.find_text(name) {
            Some(v) => {
                out.push((name.clone(), v));
                assert(pairs_view(out) =~= prev.push((name@, v@)));
            },
            None => {},
        }
        i += 1;
    }
    out
}

/// Assembles the request that a store describes, or none where neither a
/// local `request` nor a searched `uri` attribute resolves.
pub fn assemble(store: &Store) -> (r: Option<RequestSpec>)
    ensures
        request_opt_view(r) == assembled(store@),
{
    proof {
        reveal_strlit("request");
        reveal_strlit("uri");
        reveal_strlit("method");
        reveal_strlit("GET");
        reveal_strlit("body");
    }
    let uri = match store.find_text(&String::from_str("request")) {
        Some(u) => u,
        None => match store.search_text(&String::from_str("uri")) {
            Some(u) => u,
            None => { return None; },
        },
    };
    let method = match store.find_text(&String::from_str("method")) {
        Some(m) => m,
        None => String::from_str("GET"),
    };
    let body = match store.find_binary(&String::from_str("body")) {
        Some(b) => b,
        None => Vec::new(),
    };
    let headers = resolve_headers(store);
    let r = RequestSpec { uri, method, headers, body };
    proof {
        assert(r@.body =~= body_of(store@));
    }
    Some(r)
}

/// Decides what an invocation sends: nothing without a client, else the
/// request that the store describes (nothing where no URI resolves).
pub fn prepare(store: &Store, has_client: bool) -> (r: Option<RequestSpec>)
    ensures
        request_opt_view(r) == planned(store@, has_client),
{
    if has_client { assemble(store) } else { None }
}

} // verus!
