//! The resilient renderer: a fold that isolates the nodes a rendering
//! primitive cannot handle and replaces only those with a placeholder.
use vstd::prelude::*;
use crate::print::{file_text, to_tokens};
use crate::tree::{
    attrs_model, lemma_nodes_model_push, node_model, nodes_model, take_reversed, Attr, Category,
    File, FileModel, Kind, Node, NodeModel,
};

verus! {

broadcast use vstd::std_specs::vec::group_vec_axioms;

/// `render` answers as `ok` does: whatever it returns for a unit is `Some`
/// exactly when `ok` holds of that unit.
pub open spec fn renders_as<F: Fn(&File) -> Option<String>>(
    render: F,
    ok: spec_fn(FileModel) -> bool,
) -> bool {
    forall|u: File, r: Option<String>| #[trigger]
        render.ensures((&u,), r) ==> (r is Some <==> ok(u@))
}

/// `render` accepts every unit.
pub open spec fn total<F: Fn(&File) -> Option<String>>(render: F) -> bool {
    forall|u: File| #[trigger] render.requires((&u,))
}

/// `t` is a text that `render` gave for a unit whose model is `m`.
pub open spec fn rendered<F: Fn(&File) -> Option<String>>(
    render: F,
    m: FileModel,
    t: String,
) -> bool {
    exists|u: File| u@ == m && #[trigger] render.ensures((&u,), Some(t))
}

pub open spec fn placeholder_model(c: Category) -> NodeModel {
    NodeModel {
        category: c,
        kind: Kind::Placeholder,
        name: Seq::empty(),
        has_body: false,
        attrs: Seq::empty(),
        head: "..."@,
        children: Seq::empty(),
        tail: Seq::empty(),
    }
}

/// A synthetic declaration that holds `child` as its one member.
pub open spec fn container(kind: Kind, name: Seq<char>, head: Seq<char>, child: NodeModel, tail: Seq<char>) -> NodeModel {
    NodeModel {
        category: Category::Item,
        kind,
        name,
        has_body: true,
        attrs: Seq::empty(),
        head,
        children: seq![child],
        tail,
    }
}

/// The smallest declaration in which `n` stands on its own: a declaration
/// itself, a statement in `fn main() { .. }`, an expression in
/// `const _: _ = ..;`, a foreign member in `extern { .. }`, a trait member
/// in `trait Trait { .. }`, an impl member in `impl _ { .. }`.
pub open spec fn wrapped_decl(n: NodeModel) -> NodeModel {
    match n.category {
        Category::Item => n,
        Category::Stmt => container(Kind::Fn, "main"@, "fn main() {"@, n, "}"@),
        Category::Expr => container(Kind::Const, "_"@, "const _: _ ="@, n, ";"@),
        Category::ForeignItem => container(Kind::ForeignMod, ""@, "extern {"@, n, "}"@),
        Category::TraitItem => container(Kind::Trait, "Trait"@, "trait Trait {"@, n, "}"@),
        Category::ImplItem => container(Kind::Impl, ""@, "impl _ {"@, n, "}"@),
    }
}

/// The one-declaration unit in which `n` is tried.
pub open spec fn wrap(n: NodeModel) -> FileModel {
    FileModel { shebang: None, attrs: Seq::empty(), items: seq![wrapped_decl(n)] }
}

/// The resolution of a node under a primitive that accepts exactly the
/// units `ok` holds of: the node itself if it renders in its wrapper; else
/// the node rebuilt from its resolved children, if that renders; else a
/// placeholder.
pub open spec fn resolve(ok: spec_fn(FileModel) -> bool, n: NodeModel) -> NodeModel
    decreases n,
{
    if ok(wrap(n)) {
        n
    } else {
        let rebuilt = NodeModel { children: resolve_all(ok, n.children), ..n };
        if ok(wrap(rebuilt)) {
            rebuilt
        } else {
            placeholder_model(n.category)
        }
    }
}

pub open spec fn resolve_all(ok: spec_fn(FileModel) -> bool, s: Seq<NodeModel>) -> Seq<NodeModel>
    decreases s,
{
    if s.len() == 0 {
        s
    } else {
        resolve_all(ok, s.drop_last()).push(resolve(ok, s.last()))
    }
}

/// The unit with each declaration resolved.
pub open spec fn folded(ok: spec_fn(FileModel) -> bool, f: FileModel) -> FileModel {
    FileModel { items: resolve_all(ok, f.items), ..f }
}

fn placeholder(c: Category) -> (r: Node)
    ensures
        r@ == placeholder_model(c),
{
    let r = Node {
        category: c,
        kind: Kind::Placeholder,
        name: String::new(),
        has_body: false,
        attrs: Vec::new(),
        head: "...".to_owned(),
        children: Vec::new(),
        tail: String::new(),
    };
    proof {
        assert(attrs_model(r.attrs@) =~= Seq::empty());
        assert(nodes_model(r.children@) =~= Seq::empty());
    }
    r
}

fn container_node(kind: Kind, name: &str, head: &str, child: Node, tail: &str) -> (r: Node)
    ensures
        r@ == container(kind, name@, head@, child@, tail@),
        r.children@ == seq![child],
{
    let mut children: Vec<Node> = Vec::new();
    children.push(child);
    let r = Node {
        category: Category::Item,
        kind,
        name: name.to_owned(),
        has_body: true,
        attrs: Vec::new(),
        head: head.to_owned(),
        children,
        tail: tail.to_owned(),
    };
    proof {
        assert(attrs_model(r.attrs@) =~= Seq::empty());
        lemma_nodes_model_push(Seq::empty(), child);
        assert(Seq::<Node>::empty().push(child) =~= seq![child]);
        assert(nodes_model(Seq::<Node>::empty()) =~= Seq::empty());
        assert(Seq::<NodeModel>::empty().push(child@) =~= seq![child@]);
    }
    r
}

/// Puts `n` into the unit in which it is tried.
fn contained(n: Node) -> (r: File)
    ensures
        r@ == wrap(n@),
        r.items@.len() == 1,
        n.category == Category::Item ==> r.items@[0] == n,
        n.category != Category::Item ==> r.items@[0].children@ == seq![n],
{
    let decl = match n.category {
        Category::Item => n,
        Category::Stmt => container_node(Kind::Fn, "main", "fn main() {", n, "}"),
        Category::Expr => container_node(Kind::Const, "_", "const _: _ =", n, ";"),
        Category::ForeignItem => container_node(Kind::ForeignMod, "", "extern {", n, "}"),
        Category::TraitItem => container_node(Kind::Trait, "Trait", "trait Trait {", n, "}"),
        Category::ImplItem => container_node(Kind::Impl, "", "impl _ {", n, "}"),
    };
    let mut items: Vec<Node> = Vec::new();
    items.push(decl);
    let r = File { shebang: None, attrs: Vec::new(), items };
    proof {
        assert(attrs_model(r.attrs@) =~= Seq::empty());
        lemma_nodes_model_push(Seq::empty(), decl);
        assert(Seq::<Node>::empty().push(decl) =~= seq![decl]);
        assert(nodes_model(Seq::<Node>::empty()) =~= Seq::empty());
        assert(Seq::<NodeModel>::empty().push(decl@) =~= seq![decl@]);
    }
    r
}

/// Takes back the node that `contained` put into `f`.
fn uncontained(f: File, c: Category) -> (r: Node)
    requires
        f.items@.len() == 1,
        c != Category::Item ==> f.items@[0].children@.len() == 1,
    ensures
        c == Category::Item ==> r == f.items@[0],
        c != Category::Item ==> r == f.items@[0].children@[0],
{
    let File { shebang, attrs, items } = f;
    let mut items = items;
    let decl = items.pop().unwrap();
    match c {
        Category::Item => decl,
        _ => {
            let Node { category, kind, name, has_body, attrs, head, children, tail } = decl;
            let mut children = children;
            children.pop().unwrap()
        },
    }
}

/// Tries `n` in its wrapper; hands back `n` and whether the primitive
/// rendered it.
fn try_render<F: Fn(&File) -> Option<String>>(n: Node, render: &F) -> (r: (Node, bool))
    requires
        total(*render),
    ensures
        r.0 == n,
        forall|ok: spec_fn(FileModel) -> bool| #[trigger]
            renders_as(*render, ok) ==> (r.1 == ok(wrap(n@))),
{
    let c = n.category;
    let f = contained(n);
    let out = render(&f);
    let ok = out.is_some();
    let n = uncontained(f, c);
    (n, ok)
}

fn resolve_node<F: Fn(&File) -> Option<String>>(n: Node, render: &F) -> (r: Node)
    requires
        total(*render),
    ensures
        forall|ok: spec_fn(FileModel) -> bool| #[trigger]
            renders_as(*render, ok) ==> r@ == resolve(ok, n@),
    decreases n,
{
    let ghost orig = n;
    let (n, first) = try_render(n, render);
    if first {
        return n;
    }
    let c = n.category;
    let Node { category, kind, name, has_body, attrs, head, children, tail } = n;
    assert(decreases_to!(orig => orig.children));
    let children = resolve_nodes(children, render);
    let rebuilt = Node { category, kind, name, has_body, attrs, head, children, tail };
    let (rebuilt, second) = try_render(rebuilt, render);
    if second {
        return rebuilt;
    }
    placeholder(c)
}

#[verifier::loop_isolation(false)]
fn resolve_nodes<F: Fn(&File) -> Option<String>>(v: Vec<Node>, render: &F) -> (r: Vec<Node>)
    requires
        total(*render),
    ensures
        forall|ok: spec_fn(FileModel) -> bool| #[trigger]
            renders_as(*render, ok) ==> nodes_model(r@) == resolve_all(ok, nodes_model(v@)),
    decreases v,
{
    let ghost orig = v;
    let mut v = v;
    let mut rev = take_reversed(&mut v);
    let mut out: Vec<Node> = Vec::new();
    let ghost n = rev@.len();
    proof {
        assert(orig@.subrange(0, 0) =~= Seq::<Node>::empty());
    }
    while rev.len() > 0
        invariant
            n == orig@.len(),
            rev@.len() <= n,
            forall|j: int| 0 <= j < rev@.len() ==> #[trigger] rev@[j] == orig@[n - 1 - j],
            forall|ok: spec_fn(FileModel) -> bool| #[trigger]
                renders_as(*render, ok) ==> nodes_model(out@) == resolve_all(
                    ok,
                    nodes_model(orig@.subrange(0, n - rev@.len())),
                ),
        decreases rev@.len(),
    {
        let ghost k = n - rev@.len();
        let x = rev.pop().unwrap();
        assert(x == orig@[k]);
        proof {
            assert(decreases_to!(orig => orig@));
            assert(decreases_to!(orig@ => orig@[k]));
        }
        let y = resolve_node(x, render);
        proof {
            let pre = orig@.subrange(0, k);
            assert(orig@.subrange(0, k + 1) =~= pre.push(x));
            lemma_nodes_model_push(pre, x);
            assert(nodes_model(pre).push(node_model(x)).drop_last() =~= nodes_model(pre));
            lemma_nodes_model_push(out@, y);
        }
        out.push(y);
    }
    assert(orig@.subrange(0, n as int) =~= orig@);
    out
}

/// Renders a unit through `render`, a primitive that may fail on any
/// unit. When the whole unit renders, that text is the result. Otherwise
/// each declaration is resolved, and the resolved unit is rendered; should
/// that fail too, its token text is the result.
pub fn unparse_maximal<F: Fn(&File) -> Option<String>>(syntax_tree: File, render: &F) -> (r: String)
    requires
        total(*render),
    ensures
        forall|ok: spec_fn(FileModel) -> bool| #[trigger]
            renders_as(*render, ok) ==> {
                if ok(syntax_tree@) {
                    rendered(*render, syntax_tree@, r)
                } else if ok(folded(ok, syntax_tree@)) {
                    rendered(*render, folded(ok, syntax_tree@), r)
                } else {
                    r@ == file_text(folded(ok, syntax_tree@))
                }
            },
{
    let first = render(&syntax_tree);
    match first {
        Some(text) => {
            return text;
        },
        None => {},
    }
    let File { shebang, attrs, items } = syntax_tree;
    let items = resolve_nodes(items, render);
    let redacted = File { shebang, attrs, items };
    let second = render(&redacted);
    match second {
        Some(text) => text,
        None => to_tokens(&redacted),
    }
}

proof fn lemma_resolve_all_len(ok: spec_fn(FileModel) -> bool, s: Seq<NodeModel>)
    ensures
        resolve_all(ok, s).len() == s.len(),
    decreases s.len(),
{
    if s.len() > 0 {
        lemma_resolve_all_len(ok, s.drop_last());
    }
}

proof fn lemma_resolve_all_index(ok: spec_fn(FileModel) -> bool, s: Seq<NodeModel>, j: int)
    requires
        0 <= j < s.len(),
    ensures
        resolve_all(ok, s)[j] == resolve(ok, s[j]),
    decreases s.len(),
{
    lemma_resolve_all_len(ok, s.drop_last());
    if j < s.len() - 1 {
        lemma_resolve_all_index(ok, s.drop_last(), j);
    }
}

/// Resolving nodes that each render in their wrapper keeps them as they are.
pub proof fn lemma_resolve_all_renderable(ok: spec_fn(FileModel) -> bool, s: Seq<NodeModel>)
    requires
        forall|j: int| 0 <= j < s.len() ==> ok(#[trigger] wrap(s[j])),
    ensures
        resolve_all(ok, s) == s,
{
    lemma_resolve_all_len(ok, s);
    assert forall|j: int| 0 <= j < s.len() implies resolve_all(ok, s)[j] == s[j] by {
        lemma_resolve_all_index(ok, s, j);
    }
    assert(resolve_all(ok, s) =~= s);
}

/// Loss is confined to the smallest failing subtree: let `parent` fail in
/// its wrapper, let its child `i` fail too while each of its own children renders,
/// let every other child of `parent` render, and let `parent` render once
/// that child is a placeholder. Then the resolved parent is the parent with
/// exactly that child replaced by a placeholder, and nothing else changed.
pub proof fn lemma_minimal_placeholder(ok: spec_fn(FileModel) -> bool, parent: NodeModel, i: int)
    requires
        0 <= i < parent.children.len(),
        !ok(wrap(parent)),
        !ok(wrap(parent.children[i])),
        forall|j: int|
            0 <= j < parent.children[i].children.len() ==> ok(
                #[trigger] wrap(parent.children[i].children[j]),
            ),
        forall|j: int|
            0 <= j < parent.children.len() && j != i ==> ok(#[trigger] wrap(parent.children[j])),
        ok(
            wrap(
                NodeModel {
                    children: parent.children.update(
                        i,
                        placeholder_model(parent.children[i].category),
                    ),
                    ..parent
                },
            ),
        ),
    ensures
        resolve(ok, parent) == (NodeModel {
            children: parent.children.update(i, placeholder_model(parent.children[i].category)),
            ..parent
        }),
{
    let c = parent.children[i];
    let replaced = parent.children.update(i, placeholder_model(c.category));
    lemma_resolve_all_renderable(ok, c.children);
    assert((NodeModel { children: c.children, ..c }) == c);
    assert(resolve(ok, c) == placeholder_model(c.category));
    lemma_resolve_all_len(ok, parent.children);
    assert forall|j: int| 0 <= j < parent.children.len() implies resolve_all(ok, parent.children)[j]
        == replaced[j] by {
        lemma_resolve_all_index(ok, parent.children, j);
    }
    assert(resolve_all(ok, parent.children) =~= replaced);
}

} // verus!
