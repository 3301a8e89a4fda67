//! What holds of every store and every outcome.
use vstd::prelude::*;
use crate::capture::{
    after, captured, count_named, count_upto, response_body_of, response_from, response_index,
    body_replaced, without_upto, Outcome,
};
use crate::request::{assembled, planned, uri_of};
use crate::store::{find_binary, find_binary_from, find_text, search_text_from, BlockView, StoreView, Val};

verus! {

/// Without a client nothing is sent, and the store is left as it was.
pub proof fn no_client_leaves_store(s: StoreView)
    ensures
        planned(s, false) is None,
        after(s, Outcome::Skipped) == s,
{
}

/// Where neither a local `request` nor a searched `uri` attribute resolves,
/// nothing is sent, and the store is left as it was.
pub proof fn no_uri_leaves_store(s: StoreView, has_client: bool)
    requires
        find_text(s.local(), "request"@) is None,
        search_text_from(s.scopes, "uri"@, 0) is None,
    ensures
        uri_of(s) is None,
        planned(s, has_client) is None,
        after(s, Outcome::Skipped) == s,
{
}

/// Without a local `method` attribute the request uses `GET`.
pub proof fn default_method(s: StoreView)
    requires
        find_text(s.local(), "method"@) is None,
        uri_of(s) is Some,
    ensures
        assembled(s) is Some,
        assembled(s).unwrap().method == "GET"@,
{
}

/// The request body is the local binary `body` attribute, byte for byte.
pub proof fn body_passthrough(s: StoreView, b: Seq<u8>)
    requires
        find_binary(s.local(), "body"@) == Some(b),
        uri_of(s) is Some,
    ensures
        assembled(s) is Some,
        assembled(s).unwrap().body == b,
{
}

/// Without a local binary `body` attribute the request body is empty.
pub proof fn empty_body_default(s: StoreView)
    requires
        find_binary(s.local(), "body"@) is None,
        uri_of(s) is Some,
    ensures
        assembled(s) is Some,
        assembled(s).unwrap().body.len() == 0,
{
}

/// A failed invocation (refused request, transport error, unreadable body)
/// leaves the store exactly as it was.
pub proof fn failure_leaves_store(s: StoreView)
    ensures
        after(s, Outcome::AssemblyFailed) == s,
        after(s, Outcome::TransportFailed) == s,
        after(s, Outcome::CaptureFailed) == s,
{
}

proof fn lemma_without_count(attrs: Seq<(Seq<char>, Val)>, name: Seq<char>, n: int)
    requires
        0 <= n <= attrs.len(),
    ensures
        count_upto(without_upto(attrs, name, n), name, without_upto(attrs, name, n).len() as int) == 0,
    decreases n,
{
    if n > 0 {
        lemma_without_count(attrs, name, n - 1);
        let prev = without_upto(attrs, name, n - 1);
        if attrs[n - 1].0 != name {
            let cur = prev.push(attrs[n - 1]);
            lemma_count_prefix(cur, name, prev.len() as int);
            assert(cur.subrange(0, prev.len() as int) =~= prev);
        }
    }
}

proof fn lemma_count_prefix(attrs: Seq<(Seq<char>, Val)>, name: Seq<char>, n: int)
    requires
        0 <= n <= attrs.len(),
    ensures
        count_upto(attrs, name, n) == count_upto(attrs.subrange(0, n), name, n),
    decreases n,
{
    if n > 0 {
        lemma_count_prefix(attrs, name, n - 1);
        lemma_count_prefix(attrs.subrange(0, n), name, n - 1);
        assert(attrs.subrange(0, n).subrange(0, n - 1) =~= attrs.subrange(0, n - 1));
    }
}

proof fn lemma_count_push(attrs: Seq<(Seq<char>, Val)>, a: (Seq<char>, Val), name: Seq<char>)
    ensures
        count_named(attrs.push(a), name) == count_named(attrs, name) + if a.0 == name { 1nat } else { 0nat },
{
    let t = attrs.push(a);
    lemma_count_prefix(t, name, attrs.len() as int);
    assert(t.subrange(0, attrs.len() as int) =~= attrs);
}

proof fn lemma_find_binary_last(attrs: Seq<(Seq<char>, Val)>, name: Seq<char>, b: Seq<u8>, i: int)
    requires
        0 <= i < attrs.len(),
        attrs.last() == (name, Val::Binary(b)),
        forall|k: int| i <= k < attrs.len() - 1 ==> attrs[k].0 != name,
    ensures
        find_binary_from(attrs, name, i) == Some(b),
    decreases attrs.len() - i,
{
    if i < attrs.len() - 1 {
        lemma_find_binary_last(attrs, name, b, i + 1);
    }
}

proof fn lemma_without_names(attrs: Seq<(Seq<char>, Val)>, name: Seq<char>, n: int)
    requires
        0 <= n <= attrs.len(),
    ensures
        forall|k: int| 0 <= k < without_upto(attrs, name, n).len() ==> without_upto(attrs, name, n)[k].0 != name,
    decreases n,
{
    if n > 0 {
        lemma_without_names(attrs, name, n - 1);
        let prev = without_upto(attrs, name, n - 1);
        if attrs[n - 1].0 != name {
            assert forall|k: int| 0 <= k < prev.len() + 1 implies #[trigger] prev.push(attrs[n - 1])[k].0 != name by {
                if k < prev.len() {
                    assert(prev.push(attrs[n - 1])[k] == prev[k]);
                }
            }
        }
    }
}

proof fn lemma_body_replaced(attrs: Seq<(Seq<char>, Val)>, b: Seq<u8>)
    ensures
        count_named(body_replaced(attrs, b), "body"@) == 1,
        find_binary(body_replaced(attrs, b), "body"@) == Some(b),
{
    let w = without_upto(attrs, "body"@, attrs.len() as int);
    lemma_without_count(attrs, "body"@, attrs.len() as int);
    lemma_count_push(w, ("body"@, Val::Binary(b)), "body"@);
    lemma_without_names(attrs, "body"@, attrs.len() as int);
    lemma_find_binary_last(w.push(("body"@, Val::Binary(b))), "body"@, b, 0);
}

proof fn lemma_response_same_names(a: Seq<BlockView>, b: Seq<BlockView>, i: int)
    requires
        a.len() == b.len(),
        forall|k: int| 0 <= k < a.len() ==> a[k].name == b[k].name,
    ensures
        response_from(a, i) == response_from(b, i),
    decreases a.len() - i,
{
    if 0 <= i < a.len() {
        lemma_response_same_names(a, b, i + 1);
    }
}

proof fn lemma_response_found(a: Seq<BlockView>, i: int)
    requires
        response_from(a, i) is Some,
    ensures
        i <= response_from(a, i).unwrap() < a.len(),
        a[response_from(a, i).unwrap()].name == "response"@,
    decreases a.len() - i,
{
    if 0 <= i < a.len() && a[i].name != "response"@ {
        lemma_response_found(a, i + 1);
    }
}

proof fn lemma_response_pushed(a: Seq<BlockView>, blk: BlockView, i: int)
    requires
        0 <= i <= a.len(),
        response_from(a, i) is None,
        blk.name == "response"@,
    ensures
        response_from(a.push(blk), i) == Some(a.len() as int),
    decreases a.len() - i,
{
    if i < a.len() {
        lemma_response_pushed(a, blk, i + 1);
    }
}

/// After a body is captured, the `response` block holds it as its one and
/// only `body` attribute: every invocation writes `body` once per scope, and
/// repeated invocations never pile up several.
pub proof fn single_body_write(s: StoreView, b: Seq<u8>)
    ensures
        response_index(captured(s, b)) is Some,
        count_named(captured(s, b).blocks[response_index(captured(s, b)).unwrap()].attrs, "body"@) == 1,
        response_body_of(captured(s, b)) == Some(b),
        captured(s, b).scopes == s.scopes,
{
    let t = captured(s, b);
    match response_index(s) {
        Some(i) => {
            lemma_response_found(s.blocks, 0);
            assert forall|k: int| 0 <= k < s.blocks.len() implies s.blocks[k].name == t.blocks[k].name by {
                if k != i {
                    assert(t.blocks[k] == s.blocks[k]);
                }
            }
            lemma_response_same_names(s.blocks, t.blocks, 0);
            lemma_body_replaced(s.blocks[i].attrs, b);
        },
        None => {
            let blk = BlockView { name: "response"@, attrs: seq![("body"@, Val::Binary(b))] };
            lemma_response_pushed(s.blocks, blk, 0);
            lemma_count_push(Seq::empty(), ("body"@, Val::Binary(b)), "body"@);
            assert(Seq::<(Seq<char>, Val)>::empty().push(("body"@, Val::Binary(b))) =~= blk.attrs);
            lemma_find_binary_last(blk.attrs, "body"@, b, 0);
        },
    }
}

/// After an invocation that received a body, the store holds that body
/// under `response.body`.
pub proof fn received_body_is_captured(s: StoreView, body: Vec<u8>)
    ensures
        response_body_of(after(s, Outcome::Received(body))) == Some(body@),
{
    single_body_write(s, body@);
}

} // verus!
