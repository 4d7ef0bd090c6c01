//! The sanitizer: removal of macro-expansion artifacts.
use vstd::prelude::*;
use crate::text::str_eq;
use crate::tree::{
    attrs_model, lemma_nodes_model_push, node_model, nodes_model, take_reversed, Attr,
    AttrModel, Category, File, FileModel, Kind, Node, NodeModel,
};

verus! {

broadcast use vstd::std_specs::vec::group_vec_axioms;

/// A macro definition, in a declaration list or a block.
pub open spec fn is_macro_def(n: NodeModel) -> bool {
    n.kind == Kind::Macro && (n.category == Category::Item || n.category == Category::Stmt)
}

/// A documentation attribute (`#[doc = ..]`, which doc comments become).
pub open spec fn is_doc(a: AttrModel) -> bool {
    a.path == "doc"@
}

/// A statement whose attributes are its payload expression's: a local
/// binding or an expression statement.
pub open spec fn strips_docs(n: NodeModel) -> bool {
    n.category == Category::Stmt && (n.kind == Kind::Local || n.kind == Kind::Expr)
}

pub open spec fn without_docs(attrs: Seq<AttrModel>) -> Seq<AttrModel> {
    attrs.filter(|a: AttrModel| !is_doc(a))
}

/// A node with every macro definition removed from every list below it,
/// and the doc attributes of every statement expression dropped.
pub open spec fn sanitized_node(n: NodeModel) -> NodeModel
    decreases n,
{
    NodeModel {
        attrs: if strips_docs(n) {
            without_docs(n.attrs)
        } else {
            n.attrs
        },
        children: sanitized_nodes(n.children),
        ..n
    }
}

pub open spec fn sanitized_nodes(s: Seq<NodeModel>) -> Seq<NodeModel>
    decreases s,
{
    if s.len() == 0 {
        s
    } else {
        let rest = sanitized_nodes(s.drop_last());
        if is_macro_def(s.last()) {
            rest
        } else {
            rest.push(sanitized_node(s.last()))
        }
    }
}

pub open spec fn sanitized(f: FileModel) -> FileModel {
    FileModel { items: sanitized_nodes(f.items), ..f }
}

fn is_doc_attr(a: &Attr) -> (r: bool)
    ensures
        r == is_doc(a@),
{
    str_eq(a.path.as_str(), "doc")
}

fn strip_doc_attrs(attrs: Vec<Attr>) -> (r: Vec<Attr>)
    ensures
        attrs_model(r@) == without_docs(attrs_model(attrs@)),
{
    let ghost orig = attrs@;
    let mut attrs = attrs;
    let mut rev = take_reversed(&mut attrs);
    let mut out: Vec<Attr> = Vec::new();
    let ghost n = rev@.len();
    proof {
        assert(orig.subrange(0, 0) =~= Seq::<Attr>::empty());
        assert(attrs_model(orig.subrange(0, 0)) =~= Seq::<AttrModel>::empty());
        reveal(Seq::filter);
    }
    while rev.len() > 0
        invariant
            n == orig.len(),
            rev@.len() <= n,
            forall|j: int| 0 <= j < rev@.len() ==> #[trigger] rev@[j] == orig[n - 1 - j],
            attrs_model(out@) == without_docs(attrs_model(orig.subrange(0, n - rev@.len()))),
        decreases rev@.len(),
    {
        let ghost k = n - rev@.len();
        let a = rev.pop().unwrap();
        assert(a == orig[k]);
        let keep = !is_doc_attr(&a);
        proof {
            let pre = orig.subrange(0, k);
            assert(orig.subrange(0, k + 1) =~= pre.push(a));
            assert(attrs_model(pre.push(a)) =~= attrs_model(pre).push(a@));
            attrs_model(pre).lemma_filter_push(a@, |a: AttrModel| !is_doc(a));
        }
        if keep {
            proof {
                assert(attrs_model(out@.push(a)) =~= attrs_model(out@).push(a@));
            }
            out.push(a);
        }
    }
    assert(orig.subrange(0, n as int) =~= orig);
    out
}

fn is_macro_node(n: &Node) -> (r: bool)
    ensures
        r == is_macro_def(n@),
{
    match n.kind {
        Kind::Macro => match n.category {
            Category::Item | Category::Stmt => true,
            _ => false,
        },
        _ => false,
    }
}

fn sanitize_node(n: Node) -> (r: Node)
    ensures
        r@ == sanitized_node(n@),
    decreases n,
{
    let Node { category, kind, name, has_body, attrs, head, children, tail } = n;
    let strip = match category {
        Category::Stmt => match kind {
            Kind::Local | Kind::Expr => true,
            _ => false,
        },
        _ => false,
    };
    let attrs = if strip {
        strip_doc_attrs(attrs)
    } else {
        attrs
    };
    assert(decreases_to!(n => children));
    let children = sanitize_nodes(children);
    Node { category, kind, name, has_body, attrs, head, children, tail }
}

#[verifier::loop_isolation(false)]
fn sanitize_nodes(v: Vec<Node>) -> (r: Vec<Node>)
    ensures
        nodes_model(r@) == sanitized_nodes(nodes_model(v@)),
    decreases v,
{
    let ghost orig = v;
    let mut v = v;
    let mut rev = take_reversed(&mut v);
    let mut out: Vec<Node> = Vec::new();
    let ghost n = rev@.len();
    proof {
        assert(orig@.subrange(0, 0) =~= Seq::<Node>::empty());
    }
    while rev.len() > 0
        invariant
            n == orig@.len(),
            rev@.len() <= n,
            forall|j: int| 0 <= j < rev@.len() ==> #[trigger] rev@[j] == orig@[n - 1 - j],
            nodes_model(out@) == sanitized_nodes(nodes_model(orig@.subrange(0, n - rev@.len()))),
        decreases rev@.len(),
    {
        let ghost k = n - rev@.len();
        let x = rev.pop().unwrap();
        assert(x == orig@[k]);
        proof {
            let pre = orig@.subrange(0, k);
            assert(orig@.subrange(0, k + 1) =~= pre.push(x));
            lemma_nodes_model_push(pre, x);
            assert(nodes_model(pre).push(node_model(x)).drop_last() =~= nodes_model(pre));
            assert(decreases_to!(orig => orig@));
            assert(decreases_to!(orig@ => orig@[k]));
            assert(decreases_to!(orig => x));
        }
        if !is_macro_node(&x) {
            let y = sanitize_node(x);
            proof {
                lemma_nodes_model_push(out@, y);
            }
            out.push(y);
        }
    }
    assert(orig@.subrange(0, n as int) =~= orig@);
    out
}

/// Removes every macro definition from every declaration list and block of
/// the unit, at every depth, and the documentation attributes of every
/// statement-level expression.
pub fn sanitize(syntax_tree: &mut File)
    ensures
        final(syntax_tree)@ == sanitized(old(syntax_tree)@),
{
    let mut items: Vec<Node> = Vec::new();
    core::mem::swap(&mut items, &mut syntax_tree.items);
    let items = sanitize_nodes(items);
    syntax_tree.items = items;
}

/// The marker that a derive macro puts on the implementation blocks it
/// generates: a bare, unqualified `automatically_derived` with no arguments.
pub open spec fn is_marker(a: AttrModel) -> bool {
    a.path == "automatically_derived"@ && !a.args
}

pub open spec fn is_auto_derived(n: NodeModel) -> bool {
    &&& n.category == Category::Item
    &&& n.kind == Kind::Impl
    &&& exists|i: int| 0 <= i < n.attrs.len() && is_marker(#[trigger] n.attrs[i])
}

pub open spec fn is_module(n: NodeModel) -> bool {
    n.category == Category::Item && n.kind == Kind::Mod
}

/// A declaration with every marked implementation block removed from its
/// module contents, at every depth of module nesting.
pub open spec fn underived_node(n: NodeModel) -> NodeModel
    decreases n,
{
    if is_module(n) {
        NodeModel { children: underived_nodes(n.children), ..n }
    } else {
        n
    }
}

pub open spec fn underived_nodes(s: Seq<NodeModel>) -> Seq<NodeModel>
    decreases s,
{
    if s.len() == 0 {
        s
    } else {
        let rest = underived_nodes(s.drop_last());
        if is_auto_derived(s.last()) {
            rest
        } else {
            rest.push(underived_node(s.last()))
        }
    }
}

pub open spec fn underived(f: FileModel) -> FileModel {
    FileModel { items: underived_nodes(f.items), ..f }
}

/// Whether `attr` is the derive marker.
pub fn is_automatically_derived_attr(attr: &Attr) -> (r: bool)
    ensures
        r == is_marker(attr@),
{
    !attr.args && str_eq(attr.path.as_str(), "automatically_derived")
}

fn is_auto_derived_node(n: &Node) -> (r: bool)
    ensures
        r == is_auto_derived(n@),
{
    let is_impl = match n.category {
        Category::Item => match n.kind {
            Kind::Impl => true,
            _ => false,
        },
        _ => false,
    };
    if !is_impl {
        return false;
    }
    let ghost m = n@;
    let mut i: usize = 0;
    while i < n.attrs.len()
        invariant
            m == n@,
            m.category == Category::Item,
            m.kind == Kind::Impl,
            i <= n.attrs@.len(),
            forall|j: int| 0 <= j < i ==> !is_marker(#[trigger] m.attrs[j]),
        decreases n.attrs@.len() - i,
    {
        assert(m.attrs[i as int] == n.attrs@[i as int]@);
        if is_automatically_derived_attr(&n.attrs[i]) {
            assert(is_marker(m.attrs[i as int]));
            return true;
        }
        i = i + 1;
    }
    false
}

fn underive_node(n: Node) -> (r: Node)
    ensures
        r@ == underived_node(n@),
    decreases n,
{
    let is_mod = match n.category {
        Category::Item => match n.kind {
            Kind::Mod => true,
            _ => false,
        },
        _ => false,
    };
    if !is_mod {
        return n;
    }
    let Node { category, kind, name, has_body, attrs, head, children, tail } = n;
    assert(decreases_to!(n => children));
    let children = underive_nodes(children);
    Node { category, kind, name, has_body, attrs, head, children, tail }
}

#[verifier::loop_isolation(false)]
fn underive_nodes(v: Vec<Node>) -> (r: Vec<Node>)
    ensures
        nodes_model(r@) == underived_nodes(nodes_model(v@)),
    decreases v,
{
    let ghost orig = v;
    let mut v = v;
    let mut rev = take_reversed(&mut v);
    let mut out: Vec<Node> = Vec::new();
    let ghost n = rev@.len();
    proof {
        assert(orig@.subrange(0, 0) =~= Seq::<Node>::empty());
    }
    while rev.len() > 0
        invariant
            n == orig@.len(),
            rev@.len() <= n,
            forall|j: int| 0 <= j < rev@.len() ==> #[trigger] rev@[j] == orig@[n - 1 - j],
            nodes_model(out@) == underived_nodes(nodes_model(orig@.subrange(0, n - rev@.len()))),
        decreases rev@.len(),
    {
        let ghost k = n - rev@.len();
        let x = rev.pop().unwrap();
        assert(x == orig@[k]);
        proof {
            let pre = orig@.subrange(0, k);
            assert(orig@.subrange(0, k + 1) =~= pre.push(x));
            lemma_nodes_model_push(pre, x);
            assert(nodes_model(pre).push(node_model(x)).drop_last() =~= nodes_model(pre));
            assert(decreases_to!(orig => orig@));
            assert(decreases_to!(orig@ => orig@[k]));
        }
        if !is_auto_derived_node(&x) {
            let y = underive_node(x);
            proof {
                lemma_nodes_model_push(out@, y);
            }
            out.push(y);
        }
    }
    assert(orig@.subrange(0, n as int) =~= orig@);
    out
}

/// Removes every implementation block that carries the derive marker from
/// the unit's declarations and, at every depth, from module contents. Every
/// other declaration keeps its place.
pub fn skip_auto_derived(syntax_tree: &mut File)
    ensures
        final(syntax_tree)@ == underived(old(syntax_tree)@),
{
    let mut items: Vec<Node> = Vec::new();
    core::mem::swap(&mut items, &mut syntax_tree.items);
    let items = underive_nodes(items);
    syntax_tree.items = items;
}

proof fn lemma_without_docs_idempotent(s: Seq<AttrModel>)
    ensures
        without_docs(without_docs(s)) == without_docs(s),
    decreases s.len(),
{
    let p = |a: AttrModel| !is_doc(a);
    reveal(Seq::filter);
    if s.len() > 0 {
        lemma_without_docs_idempotent(s.drop_last());
        assert(s =~= s.drop_last().push(s.last()));
        s.drop_last().lemma_filter_push(s.last(), p);
        s.drop_last().filter(p).lemma_filter_push(s.last(), p);
    }
}

proof fn lemma_sanitized_node_idempotent(n: NodeModel)
    ensures
        sanitized_node(sanitized_node(n)) == sanitized_node(n),
    decreases n,
{
    lemma_sanitized_nodes_idempotent(n.children);
    lemma_without_docs_idempotent(n.attrs);
}

proof fn lemma_sanitized_nodes_idempotent(s: Seq<NodeModel>)
    ensures
        sanitized_nodes(sanitized_nodes(s)) == sanitized_nodes(s),
    decreases s,
{
    if s.len() > 0 {
        lemma_sanitized_nodes_idempotent(s.drop_last());
        lemma_sanitized_node_idempotent(s.last());
        let rest = sanitized_nodes(s.drop_last());
        if !is_macro_def(s.last()) {
            let x = sanitized_node(s.last());
            assert(rest.push(x).drop_last() =~= rest);
        }
    }
}

/// Sanitizing is idempotent: after one pass no macro definition and no
/// statement-level doc attribute is left, so a second pass changes nothing.
pub proof fn lemma_sanitize_idempotent(f: FileModel)
    ensures
        sanitized(sanitized(f)) == sanitized(f),
{
    lemma_sanitized_nodes_idempotent(f.items);
}

pub open spec fn unmarked() -> spec_fn(NodeModel) -> bool {
    |n: NodeModel| !is_auto_derived(n)
}

/// No list anywhere below `n` holds a macro definition.
pub open spec fn macro_free(n: NodeModel) -> bool
    decreases n,
{
    macro_free_all(n.children)
}

pub open spec fn macro_free_all(s: Seq<NodeModel>) -> bool
    decreases s,
{
    s.len() == 0 || (macro_free_all(s.drop_last()) && !is_macro_def(s.last()) && macro_free(
        s.last(),
    ))
}

proof fn lemma_sanitized_node_macro_free(n: NodeModel)
    ensures
        macro_free(sanitized_node(n)),
    decreases n,
{
    lemma_sanitized_nodes_macro_free(n.children);
}

proof fn lemma_sanitized_nodes_macro_free(s: Seq<NodeModel>)
    ensures
        macro_free_all(sanitized_nodes(s)),
    decreases s,
{
    if s.len() > 0 {
        lemma_sanitized_nodes_macro_free(s.drop_last());
        lemma_sanitized_node_macro_free(s.last());
        let rest = sanitized_nodes(s.drop_last());
        if !is_macro_def(s.last()) {
            let x = sanitized_node(s.last());
            assert(rest.push(x).drop_last() =~= rest);
        }
    }
}

/// No statement expression at or below `n` carries a doc attribute.
pub open spec fn doc_free(n: NodeModel) -> bool
    decreases n,
{
    (strips_docs(n) ==> forall|i: int| 0 <= i < n.attrs.len() ==> !is_doc(#[trigger] n.attrs[i]))
        && doc_free_all(n.children)
}

pub open spec fn doc_free_all(s: Seq<NodeModel>) -> bool
    decreases s,
{
    s.len() == 0 || (doc_free_all(s.drop_last()) && doc_free(s.last()))
}

proof fn lemma_sanitized_node_doc_free(n: NodeModel)
    ensures
        doc_free(sanitized_node(n)),
    decreases n,
{
    lemma_sanitized_nodes_doc_free(n.children);
    if strips_docs(n) {
        let p = |a: AttrModel| !is_doc(a);
        assert forall|i: int| 0 <= i < without_docs(n.attrs).len() implies !is_doc(
            #[trigger] without_docs(n.attrs)[i],
        ) by {
            n.attrs.lemma_filter_pred(p, i);
        }
    }
}

proof fn lemma_sanitized_nodes_doc_free(s: Seq<NodeModel>)
    ensures
        doc_free_all(sanitized_nodes(s)),
    decreases s,
{
    if s.len() > 0 {
        lemma_sanitized_nodes_doc_free(s.drop_last());
        lemma_sanitized_node_doc_free(s.last());
        let rest = sanitized_nodes(s.drop_last());
        if !is_macro_def(s.last()) {
            let x = sanitized_node(s.last());
            assert(rest.push(x).drop_last() =~= rest);
        }
    }
}

/// After sanitizing, no declaration list or block at any depth holds a
/// macro definition, and no statement expression carries a doc attribute.
pub proof fn lemma_sanitize_leaves_no_artifacts(f: FileModel)
    ensures
        macro_free_all(sanitized(f).items),
        doc_free_all(sanitized(f).items),
{
    lemma_sanitized_nodes_macro_free(f.items);
    lemma_sanitized_nodes_doc_free(f.items);
}

/// In a declaration list that holds no module, skipping derived code keeps
/// exactly the declarations that are not marked implementation blocks, in
/// their order.
pub proof fn lemma_skip_keeps_unmarked(s: Seq<NodeModel>)
    requires
        forall|i: int| 0 <= i < s.len() ==> !is_module(#[trigger] s[i]),
    ensures
        underived_nodes(s) == s.filter(unmarked()),
    decreases s.len(),
{
    if s.len() > 0 {
        let t = s.drop_last();
        lemma_skip_keeps_unmarked(t);
        assert(!is_module(s[s.len() - 1]));
        assert(s =~= t.push(s.last()));
        t.lemma_filter_push(s.last(), unmarked());
        assert(underived_node(s.last()) == s.last());
    } else {
        reveal(Seq::filter);
    }
}

} // verus!
