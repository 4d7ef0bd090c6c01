//! The node model: a compilation unit as a tree of tagged nodes.
use vstd::prelude::*;

verus! {

broadcast use vstd::std_specs::vec::group_vec_axioms;

/// The syntactic category of a node; it decides which container a node
/// needs in order to stand on its own.
#[derive(Clone, Copy, PartialEq, Eq, Debug, Structural)]
pub enum Category {
    Item,
    Stmt,
    Expr,
    ForeignItem,
    TraitItem,
    ImplItem,
}

/// What a node is within its category.
///
/// `Macro` is a macro definition; `Item` is a statement that holds a nested
/// declaration as its one child; `Placeholder` is the elided leaf.
#[derive(Clone, Copy, PartialEq, Eq, Debug, Structural)]
pub enum Kind {
    Const,
    Fn,
    Type,
    Mod,
    Trait,
    Impl,
    ForeignMod,
    Macro,
    Use,
    Static,
    Struct,
    Enum,
    Union,
    ExternCrate,
    Local,
    Expr,
    Item,
    Placeholder,
    Other,
}

/// An attribute: its path as written (`doc`, `automatically_derived`,
/// `::a::b`), whether anything follows the path (`(..)`, `= ..`, generic
/// arguments), and its full token text.
#[derive(Debug)]
pub struct Attr {
    pub path: String,
    pub args: bool,
    pub text: String,
}

pub struct AttrModel {
    pub path: Seq<char>,
    pub args: bool,
    pub text: Seq<char>,
}

impl View for Attr {
    type V = AttrModel;

    open spec fn view(&self) -> AttrModel {
        AttrModel { path: self.path@, args: self.args, text: self.text@ }
    }
}

/// One syntactic construct. Its text is its attributes, then `head`, then
/// its children, then `tail`. `name` is the identifier that a selector
/// matches (the rename, for a renamed external crate); `has_body` says
/// that a module has inline content, or that a trait member has a default.
#[derive(Debug)]
pub struct Node {
    pub category: Category,
    pub kind: Kind,
    pub name: String,
    pub has_body: bool,
    pub attrs: Vec<Attr>,
    pub head: String,
    pub children: Vec<Node>,
    pub tail: String,
}

pub struct NodeModel {
    pub category: Category,
    pub kind: Kind,
    pub name: Seq<char>,
    pub has_body: bool,
    pub attrs: Seq<AttrModel>,
    pub head: Seq<char>,
    pub children: Seq<NodeModel>,
    pub tail: Seq<char>,
}

/// A compilation unit: an optional leading directive, the unit-level
/// attributes and the top-level declarations.
#[derive(Debug)]
pub struct File {
    pub shebang: Option<String>,
    pub attrs: Vec<Attr>,
    pub items: Vec<Node>,
}

pub struct FileModel {
    pub shebang: Option<Seq<char>>,
    pub attrs: Seq<AttrModel>,
    pub items: Seq<NodeModel>,
}

pub open spec fn attrs_model(v: Seq<Attr>) -> Seq<AttrModel> {
    v.map_values(|a: Attr| a@)
}

pub open spec fn node_model(n: Node) -> NodeModel
    decreases n,
{
    NodeModel {
        category: n.category,
        kind: n.kind,
        name: n.name@,
        has_body: n.has_body,
        attrs: attrs_model(n.attrs@),
        head: n.head@,
        children: nodes_model(n.children@),
        tail: n.tail@,
    }
}

pub open spec fn nodes_model(s: Seq<Node>) -> Seq<NodeModel>
    decreases s,
{
    if s.len() == 0 {
        Seq::empty()
    } else {
        nodes_model(s.drop_last()).push(node_model(s.last()))
    }
}

impl View for Node {
    type V = NodeModel;

    open spec fn view(&self) -> NodeModel {
        node_model(*self)
    }
}

impl View for File {
    type V = FileModel;

    open spec fn view(&self) -> FileModel {
        FileModel {
            shebang: match self.shebang {
                Some(s) => Some(s@),
                None => None,
            },
            attrs: attrs_model(self.attrs@),
            items: nodes_model(self.items@),
        }
    }
}

pub broadcast proof fn lemma_nodes_model_len(s: Seq<Node>)
    ensures
        #[trigger] nodes_model(s).len() == s.len(),
    decreases s.len(),
{
    if s.len() > 0 {
        lemma_nodes_model_len(s.drop_last());
    }
}

pub broadcast proof fn lemma_nodes_model_index(s: Seq<Node>, i: int)
    requires
        0 <= i < s.len(),
    ensures
        #[trigger] nodes_model(s)[i] == node_model(s[i]),
    decreases s.len(),
{
    lemma_nodes_model_len(s.drop_last());
    if i < s.len() - 1 {
        lemma_nodes_model_index(s.drop_last(), i);
    }
}

/// Empties `v` and returns its elements in reverse order, so that popping
/// from the result yields them front to back.
pub fn take_reversed<T>(v: &mut Vec<T>) -> (r: Vec<T>)
    ensures
        final(v)@.len() == 0,
        r@.len() == old(v)@.len(),
        forall|j: int| 0 <= j < r@.len() ==> #[trigger] r@[j] == old(v)@[r@.len() - 1 - j],
{
    let ghost orig = v@;
    let mut r: Vec<T> = Vec::new();
    while v.len() > 0
        invariant
            v@ == orig.subrange(0, v@.len() as int),
            r@.len() + v@.len() == orig.len(),
            forall|j: int| 0 <= j < r@.len() ==> #[trigger] r@[j] == orig[orig.len() - 1 - j],
        decreases v@.len(),
    {
        let x = v.pop().unwrap();
        r.push(x);
    }
    r
}

pub proof fn lemma_nodes_model_push(s: Seq<Node>, n: Node)
    ensures
        nodes_model(s.push(n)) == nodes_model(s).push(node_model(n)),
{
    assert(s.push(n).drop_last() =~= s);
}

pub proof fn lemma_nodes_model_concat(a: Seq<Node>, b: Seq<Node>)
    ensures
        nodes_model(a + b) == nodes_model(a) + nodes_model(b),
    decreases b.len(),
{
    if b.len() == 0 {
        assert(a + b =~= a);
        assert(nodes_model(a) + nodes_model(b) =~= nodes_model(a));
    } else {
        lemma_nodes_model_concat(a, b.drop_last());
        assert((a + b).drop_last() =~= a + b.drop_last());
        assert(nodes_model(a) + nodes_model(b) =~= (nodes_model(a) + nodes_model(b.drop_last())).push(
            node_model(b.last()),
        ));
    }
}

} // verus!
