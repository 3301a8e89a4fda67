//! The attribute store: scopes of named, typed values, with local and
//! search lookup.
use vstd::prelude::*;

verus! {

/// A typed attribute value.
pub enum AttrValue {
    Text(String),
    Binary(Vec<u8>),
    Symbol(String),
}

/// The mathematical value of an [`AttrValue`].
pub ghost enum Val {
    Text(Seq<char>),
    Binary(Seq<u8>),
    Symbol(Seq<char>),
}

impl View for AttrValue {
    type V = Val;

    open spec fn view(&self) -> Val {
        match self {
            AttrValue::Text(s) => Val::Text(s@),
            AttrValue::Binary(b) => Val::Binary(b@),
            AttrValue::Symbol(s) => Val::Symbol(s@),
        }
    }
}

/// A named attribute of a scope.
pub struct Attribute {
    pub name: String,
    pub value: AttrValue,
}

impl View for Attribute {
    type V = (Seq<char>, Val);

    open spec fn view(&self) -> (Seq<char>, Val) {
        (self.name@, self.value@)
    }
}

/// The text a value holds, where it is read as text (a text or a symbol).
pub open spec fn text_of(v: Val) -> Option<Seq<char>> {
    match v {
        Val::Text(s) => Some(s),
        Val::Symbol(s) => Some(s),
        Val::Binary(_) => None,
    }
}

/// The bytes a value holds, where it is binary.
pub open spec fn binary_of(v: Val) -> Option<Seq<u8>> {
    match v {
        Val::Binary(b) => Some(b),
        _ => None,
    }
}

/// The symbol a value holds, where it is a symbol.
pub open spec fn symbol_of(v: Val) -> Option<Seq<char>> {
    match v {
        Val::Symbol(s) => Some(s),
        _ => None,
    }
}

/// The text of the first attribute at or after `i` named `name` that holds text.
pub open spec fn find_text_from(attrs: Seq<(Seq<char>, Val)>, name: Seq<char>, i: int) -> Option<Seq<char>>
    decreases attrs.len() - i,
{
    if i < 0 || i >= attrs.len() {
        None
    } else if attrs[i].0 == name && text_of(attrs[i].1) is Some {
        text_of(attrs[i].1)
    } else {
        find_text_from(attrs, name, i + 1)
    }
}

/// The bytes of the first attribute at or after `i` named `name` that is binary.
pub open spec fn find_binary_from(attrs: Seq<(Seq<char>, Val)>, name: Seq<char>, i: int) -> Option<Seq<u8>>
    decreases attrs.len() - i,
{
    if i < 0 || i >= attrs.len() {
        None
    } else if attrs[i].0 == name && binary_of(attrs[i].1) is Some {
        binary_of(attrs[i].1)
    } else {
        find_binary_from(attrs, name, i + 1)
    }
}

/// Local text lookup: the first attribute of the scope named `name` that holds text.
pub open spec fn find_text(attrs: Seq<(Seq<char>, Val)>, name: Seq<char>) -> Option<Seq<char>> {
    find_text_from(attrs, name, 0)
}

/// Local binary lookup: the first binary attribute of the scope named `name`.
pub open spec fn find_binary(attrs: Seq<(Seq<char>, Val)>, name: Seq<char>) -> Option<Seq<u8>> {
    find_binary_from(attrs, name, 0)
}

/// Search lookup of text from scope `j` outward: the first scope with a hit wins.
pub open spec fn search_text_from(scopes: Seq<Seq<(Seq<char>, Val)>>, name: Seq<char>, j: int) -> Option<Seq<char>>
    decreases scopes.len() - j,
{
    if j < 0 || j >= scopes.len() {
        None
    } else if find_text(scopes[j], name) is Some {
        find_text(scopes[j], name)
    } else {
        search_text_from(scopes, name, j + 1)
    }
}

/// The symbols held by attributes named `name` among the first `n` of a scope, in order.
pub open spec fn symbols_upto(attrs: Seq<(Seq<char>, Val)>, name: Seq<char>, n: int) -> Seq<Seq<char>>
    decreases n,
{
    if n <= 0 || n > attrs.len() {
        Seq::empty()
    } else {
        let prev = symbols_upto(attrs, name, n - 1);
        if attrs[n - 1].0 == name && symbol_of(attrs[n - 1].1) is Some {
            prev.push(symbol_of(attrs[n - 1].1).unwrap())
        } else {
            prev
        }
    }
}

/// The symbols held by attributes named `name` in the first `n` scopes, local scope first.
pub open spec fn search_symbols_upto(scopes: Seq<Seq<(Seq<char>, Val)>>, name: Seq<char>, n: int) -> Seq<Seq<char>>
    decreases n,
{
    if n <= 0 || n > scopes.len() {
        Seq::empty()
    } else {
        search_symbols_upto(scopes, name, n - 1) + symbols_upto(scopes[n - 1], name, scopes[n - 1].len() as int)
    }
}

/// A child scope of the local scope, such as the `response` block.
pub struct Block {
    pub name: String,
    pub attrs: Vec<Attribute>,
}

/// The mathematical value of a [`Block`].
pub ghost struct BlockView {
    pub name: Seq<char>,
    pub attrs: Seq<(Seq<char>, Val)>,
}

impl View for Block {
    type V = BlockView;

    open spec fn view(&self) -> BlockView {
        BlockView { name: self.name@, attrs: self.attrs@.map_values(|a: Attribute| a@) }
    }
}

/// The attribute store of one invocation.
///
/// `scopes[0]` is the local scope; the following scopes are the inherited
/// ones, from the nearest outward. `blocks` are the child scopes of the local
/// scope. A name may occur more than once in a scope: a symbol group such as
/// `header` is one attribute per member. A lookup of a single value takes the
/// first attribute of the name that holds a value of the kind asked for.
pub struct Store {
    pub scopes: Vec<Vec<Attribute>>,
    pub blocks: Vec<Block>,
}

/// The mathematical value of a [`Store`].
pub ghost struct StoreView {
    pub scopes: Seq<Seq<(Seq<char>, Val)>>,
    pub blocks: Seq<BlockView>,
}

pub open spec fn attrs_view(v: Vec<Attribute>) -> Seq<(Seq<char>, Val)> {
    v@.map_values(|a: Attribute| a@)
}

impl View for Store {
    type V = StoreView;

    open spec fn view(&self) -> StoreView {
        StoreView {
            scopes: self.scopes@.map_values(|s: Vec<Attribute>| attrs_view(s)),
            blocks: self.blocks@.map_values(|b: Block| b@),
        }
    }
}

impl StoreView {
    /// The local scope (empty where the store has no scope at all).
    pub open spec fn local(self) -> Seq<(Seq<char>, Val)> {
        if self.scopes.len() > 0 { self.scopes[0] } else { Seq::empty() }
    }
}

/// The view of an optional string.
pub open spec fn text_view(o: Option<String>) -> Option<Seq<char>> {
    match o {
        Some(s) => Some(s@),
        None => None,
    }
}

/// The view of optional bytes.
pub open spec fn bytes_view(o: Option<Vec<u8>>) -> Option<Seq<u8>> {
    match o {
        Some(b) => Some(b@),
        None => None,
    }
}

/// Local text lookup in a scope.
pub fn scope_find_text(attrs: &Vec<Attribute>, name: &String) -> (r: Option<String>)
    ensures
        text_view(r) == find_text(attrs_view(*attrs), name@),
{
    let ghost av = attrs_view(*attrs);
    let mut i: usize = 0;
    while i < attrs.len()
        invariant
            i <= attrs.len(),
            av == attrs_view(*attrs),
            find_text(av, name@) == find_text_from(av, name@, i as int),
        decreases attrs.len() - i,
    {
        let a = &attrs[i];
        if a.name == *name {
            match &a.value {
                AttrValue::Text(s) => { return Some(s.clone()); },
                AttrValue::Symbol(s) => { return Some(s.clone()); },
                AttrValue::Binary(_) => {},
            }
        }
        i += 1;
    }
    None
}

/// Local binary lookup in a scope.
pub fn scope_find_binary(attrs: &Vec<Attribute>, name: &String) -> (r: Option<Vec<u8>>)
    ensures
        bytes_view(r) == find_binary(attrs_view(*attrs), name@),
{
    let ghost av = attrs_view(*attrs);
    let mut i: usize = 0;
    while i < attrs.len()
        invariant
            i <= attrs.len(),
            av == attrs_view(*attrs),
            find_binary(av, name@) == find_binary_from(av, name@, i as int),
        decreases attrs.len() - i,
    {
        let a = &attrs[i];
        if a.name == *name {
            match &a.value {
                AttrValue::Binary(b) => { return Some(b.clone()); },
                _ => {},
            }
        }
        i += 1;
    }
    None
}

/// The strings of a vector, as a sequence of their views.
pub open spec fn strings_view(v: Vec<String>) -> Seq<Seq<char>> {
    v@.map_values(|s: String| s@)
}

/// Collects the symbols of a scope's attributes named `name`, in order.
fn scope_symbols(attrs: &Vec<Attribute>, name: &String, out: &mut Vec<String>)
    ensures
        strings_view(*final(out)) == strings_view(*old(out)) + symbols_upto(
            attrs_view(*attrs),
            name@,
            attrs@.len() as int,
        ),
{
    let ghost av = attrs_view(*attrs);
    let ghost start = strings_view(*out);
    let mut i: usize = 0;
    while i < attrs.len()
        invariant
            i <= attrs.len(),
            av == attrs_view(*attrs),
            strings_view(*out) == start + symbols_upto(av, name@, i as int),
        decreases attrs.len() - i,
    {
        let a = &attrs[i];
        let ghost prev = strings_view(*out);
        assert(av[i as int] == a@);
        if a.name == *name {
            match &a.value {
                AttrValue::Symbol(v) => {
                    out.push(v.clone());
                    assert(strings_view(*out) =~= prev.push(v@));
                },
                _ => {},
            }
        }
        i += 1;
        proof {
            assert(strings_view(*out) =~= start + symbols_upto(av, name@, i as int));
        }
    }
}

impl Store {
    /// An empty store of one (empty) local scope.
    pub fn new() -> (r: Store)
        ensures
            r@.scopes =~= seq![Seq::<(Seq<char>, Val)>::empty()],
            r@.blocks.len() == 0,
    {
        let r = Store { scopes: vec![Vec::new()], blocks: Vec::new() };
        proof {
            assert(attrs_view(r.scopes@[0]) =~= Seq::<(Seq<char>, Val)>::empty());
        }
        r
    }

    /// Local lookup of a text (or symbol) attribute.
    pub fn find_text(&self, name: &String) -> (r: Option<String>)
        ensures
            text_view(r) == find_text(self@.local(), name@),
    {
        if self.scopes.len() == 0 {
            return None;
        }
        scope_find_text(&self.scopes[0], name)
    }

    /// Local lookup of a binary attribute.
    pub fn find_binary(&self, name: &String) -> (r: Option<Vec<u8>>)
        ensures
            bytes_view(r) == find_binary(self@.local(), name@),
    {
        if self.scopes.len() == 0 {
            return None;
        }
        scope_find_binary(&self.scopes[0], name)
    }

    /// Search lookup of a text attribute: the local scope first, then outward.
    pub fn search_text(&self, name: &String) -> (r: Option<String>)
        ensures
            text_view(r) == search_text_from(self@.scopes, name@, 0),
    {
        let ghost sv = self@.scopes;
        let mut j: usize = 0;
        while j < self.scopes.len()
            invariant
                j <= self.scopes.len(),
                sv == self@.scopes,
                search_text_from(sv, name@, 0) == search_text_from(sv, name@, j as int),
            decreases self.scopes.len() - j,
        {
            let r = scope_find_text(&self.scopes[j], name);
            if r.is_some() {
                return r;
            }
            j += 1;
        }
        None
    }

    /// All symbols held by attributes named `name`, over every scope, local first.
    pub fn search_symbols(&self, name: &String) -> (r: Vec<String>)
        ensures
            strings_view(r) == search_symbols_upto(self@.scopes, name@, self@.scopes.len() as int),
    {
        let ghost sv = self@.scopes;
        let mut out: Vec<String> = Vec::new();
        let mut j: usize = 0;
        proof {
            assert(strings_view(out) =~= Seq::<Seq<char>>::empty());
        }
        while j < self.scopes.len()
            invariant
                j <= self.scopes.len(),
                sv == self@.scopes,
                strings_view(out) == search_symbols_upto(sv, name@, j as int),
            decreases self.scopes.len() - j,
        {
            scope_symbols(&self.scopes[j], name, &mut out);
            j += 1;
        }
        out
    }

    /// Declares a header: adds a `header` symbol naming it to the local scope
    /// (creating the local scope where the store has none).
    pub fn declare_header(&mut self, header: String)
        ensures
            final(self)@.blocks == old(self)@.blocks,
            final(self)@.scopes.len() == if old(self)@.scopes.len() == 0 { 1 } else { old(self)@.scopes.len() },
            final(self)@.local() == old(self)@.local().push((header_key(), Val::Symbol(header@))),
            forall|j: int| 1 <= j < final(self)@.scopes.len() ==> final(self)@.scopes[j] == old(self)@.scopes[j],
    {
        if self.scopes.len() == 0 {
            self.scopes.push(Vec::new());
            proof {
                assert(attrs_view(self.scopes@[0]) =~= Seq::<(Seq<char>, Val)>::empty());
            }
        }
        let ghost before = self@;
        let mut local = self.scopes.remove(0);
        local.push(Attribute { name: header_name(), value: AttrValue::Symbol(header) });
        self.scopes.insert(0, local);
        proof {
            assert(self@.scopes =~= before.scopes.update(0, self@.scopes[0]));
            assert(self@.local() =~= before.local().push((header_key(), Val::Symbol(header@))));
        }
    }
}

/// The name of the attribute group that declares headers.
pub open spec fn header_key() -> Seq<char> {
    seq!['h', 'e', 'a', 'd', 'e', 'r']
}

/// The name of the attribute group that declares headers.
pub fn header_name() -> (r: String)
    ensures
        r@ == header_key(),
{
    let r = String::from_str("header");
    proof {
        reveal_strlit("header");
    }
    r
}

} // verus!
