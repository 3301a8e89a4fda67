//! Response capture: writing the outcome of an invocation back into the store.
use vstd::prelude::*;
use crate::store::{attrs_view, bytes_view, find_binary, AttrValue, Attribute, Block, BlockView, Store, StoreView, Val};

verus! {

/// How an invocation ended.
pub enum Outcome {
    /// No client was configured, or no URI resolved: nothing was sent.
    Skipped,
    /// The request builder refused the request.
    AssemblyFailed,
    /// The client could not send the request.
    TransportFailed,
    /// The response body could not be read in full.
    CaptureFailed,
    /// The response body, read in full.
    Received(Vec<u8>),
}

/// The attributes among the first `n` that are not named `name`, in order.
pub open spec fn without_upto(attrs: Seq<(Seq<char>, Val)>, name: Seq<char>, n: int) -> Seq<(Seq<char>, Val)>
    decreases n,
{
    if n <= 0 || n > attrs.len() {
        Seq::empty()
    } else {
        let prev = without_upto(attrs, name, n - 1);
        if attrs[n - 1].0 == name { prev } else { prev.push(attrs[n - 1]) }
    }
}

/// The number of attributes among the first `n` that are named `name`.
pub open spec fn count_upto(attrs: Seq<(Seq<char>, Val)>, name: Seq<char>, n: int) -> nat
    decreases n,
{
    if n <= 0 || n > attrs.len() {
        0
    } else {
        count_upto(attrs, name, n - 1) + if attrs[n - 1].0 == name { 1nat } else { 0nat }
    }
}

/// The number of attributes of a scope named `name`.
pub open spec fn count_named(attrs: Seq<(Seq<char>, Val)>, name: Seq<char>) -> nat {
    count_upto(attrs, name, attrs.len() as int)
}

/// The index of the first block at or after `i` named `response`.
pub open spec fn response_from(blocks: Seq<BlockView>, i: int) -> Option<int>
    decreases blocks.len() - i,
{
    if i < 0 || i >= blocks.len() {
        None
    } else if blocks[i].name == "response"@ {
        Some(i)
    } else {
        response_from(blocks, i + 1)
    }
}

/// The index of the `response` block of a store, where it has one.
pub open spec fn response_index(s: StoreView) -> Option<int> {
    response_from(s.blocks, 0)
}

/// A scope with its `body` attributes replaced by one holding `body`.
pub open spec fn body_replaced(attrs: Seq<(Seq<char>, Val)>, body: Seq<u8>) -> Seq<(Seq<char>, Val)> {
    without_upto(attrs, "body"@, attrs.len() as int).push(("body"@, Val::Binary(body)))
}

/// The store once `body` is captured: the `response` block (created where
/// missing) holds `body` as its one `body` attribute; nothing else changes.
pub open spec fn captured(s: StoreView, body: Seq<u8>) -> StoreView {
    match response_index(s) {
        Some(i) => StoreView {
            scopes: s.scopes,
            blocks: s.blocks.update(
                i,
                BlockView { name: s.blocks[i].name, attrs: body_replaced(s.blocks[i].attrs, body) },
            ),
        },
        None => StoreView {
            scopes: s.scopes,
            blocks: s.blocks.push(
                BlockView { name: "response"@, attrs: seq![("body"@, Val::Binary(body))] },
            ),
        },
    }
}

/// The store after an invocation that ended in `o`: changed only where a
/// response body was received.
pub open spec fn after(s: StoreView, o: Outcome) -> StoreView {
    match o {
        Outcome::Received(b) => captured(s, b@),
        _ => s,
    }
}

/// The captured response body of a store: the `body` of its `response` block.
pub open spec fn response_body_of(s: StoreView) -> Option<Seq<u8>> {
    match response_index(s) {
        Some(i) => find_binary(s.blocks[i].attrs, "body"@),
        None => None,
    }
}

/// The index of the `response` block, where the store has one.
fn find_response(store: &Store) -> (r: Option<usize>)
    ensures
        match r {
            Some(i) => response_index(store@) == Some(i as int) && i < store.blocks.len(),
            None => response_index(store@) is None,
        },
{
    proof {
        reveal_strlit("response");
    }
    let name = String::from_str("response");
    let mut i: usize = 0;
    while i < store.blocks.len()
        invariant
            i <= store.blocks.len(),
            name@ == "response"@,
            response_index(store@) == response_from(store@.blocks, i as int),
        decreases store.blocks.len() - i,
    {
        assert(store@.blocks[i as int] == store.blocks@[i as int]@);
        if store.blocks[i].name == name {
            return Some(i);
        }
        i += 1;
    }
    None
}

/// A scope with its `body` attributes replaced by one holding `body`.
fn replace_body(attrs: Vec<Attribute>, body: Vec<u8>) -> (r: Vec<Attribute>)
    ensures
        attrs_view(r) == body_replaced(attrs_view(attrs), body@),
{
    proof {
        reveal_strlit("body");
    }
    let ghost av = attrs_view(attrs);
    let key = String::from_str("body");
    let mut out: Vec<Attribute> = Vec::new();
    let mut rest = attrs;
    let mut i: usize = 0;
    let n = rest.len();
    proof {
        assert(attrs_view(out) =~= Seq::<(Seq<char>, Val)>::empty());
    }
    while rest.len() > 0
        invariant
            n == av.len(),
            i + rest.len() == n,
            key@ == "body"@,
            attrs_view(rest) =~= av.subrange(i as int, n as int),
            attrs_view(out) == without_upto(av, "body"@, i as int),
        decreases rest.len(),
    {
        let ghost rv = rest@;
        let ghost rvv = attrs_view(rest);
        let a = rest.remove(0);
        assert(av[i as int] == a@) by {
            assert(av.subrange(i as int, n as int)[0] == a@);
        }
        assert(rest@ =~= rv.subrange(1, rv.len() as int));
        assert forall|k: int| 0 <= k < attrs_view(rest).len() implies attrs_view(rest)[k] == av[i + 1 + k] by {
            assert(attrs_view(rest)[k] == rest@[k]@);
            assert(rvv[k + 1] == rv[k + 1]@);
            assert(rvv[k + 1] == av.subrange(i as int, n as int)[k + 1]);
        }
        assert(attrs_view(rest) =~= av.subrange(i + 1, n as int));
        let ghost prev = attrs_view(out);
        if a.name != key {
            out.push(a);
            assert(attrs_view(out) =~= prev.push(av[i as int]));
        }
        i += 1;
    }
    let ghost kept = attrs_view(out);
    out.push(Attribute { name: key, value: AttrValue::Binary(body) });
    assert(attrs_view(out) =~= kept.push(("body"@, Val::Binary(body@))));
    out
}

/// Writes the outcome of an invocation into the store. Only a received body
/// changes it: it becomes the one `body` attribute of the `response` block,
/// which is created where missing. Every failure leaves the store as it was.
pub fn capture(store: &mut Store, outcome: Outcome)
    ensures
        final(store)@ == after(old(store)@, outcome),
{
    match outcome {
        Outcome::Received(body) => {
            proof {
                reveal_strlit("body");
                reveal_strlit("response");
            }
            let ghost s0 = store@;
            match find_response(store) {
                Some(i) => {
                    let block = store.blocks.remove(i);
                    let Block { name, attrs } = block;
                    let attrs = replace_body(attrs, body);
                    store.blocks.insert(i, Block { name, attrs });
                    assert(store@.blocks =~= captured(s0, body@).blocks);
                    assert(store@.scopes =~= s0.scopes);
                },
                None => {
                    let mut attrs: Vec<Attribute> = Vec::new();
                    attrs.push(Attribute { name: String::from_str("body"), value: AttrValue::Binary(body) });
                    store.blocks.push(Block { name: String::from_str("response"), attrs });
                    assert(attrs_view(attrs) =~= seq![("body"@, Val::Binary(body@))]);
                    assert(store@.blocks =~= captured(s0, body@).blocks);
                    assert(store@.scopes =~= s0.scopes);
                },
            }
        },
        _ => {},
    }
}

/// The captured response body: the binary `body` attribute of the `response` block.
pub fn response_body(store: &Store) -> (r: Option<Vec<u8>>)
    ensures
        bytes_view(r) == response_body_of(store@),
{
    match find_response(store) {
        Some(i) => {
            proof {
                reveal_strlit("body");
            }
            crate::store::scope_find_binary(&store.blocks[i].attrs, &String::from_str("body"))
        },
        None => None,
    }
}

} // verus!
