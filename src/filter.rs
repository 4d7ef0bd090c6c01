//! The scope selector: narrowing a unit to one addressed declaration.
use vstd::prelude::*;
use crate::text::{copy_string, push_char, str_eq};
use crate::tree::{
    lemma_nodes_model_concat, lemma_nodes_model_push, node_model, nodes_model, take_reversed,
    Category, File, FileModel, Kind, Node, NodeModel,
};

verus! {

broadcast use vstd::std_specs::vec::group_vec_axioms;

/// Whether `s`, lexed as Rust tokens, is one identifier that is not a
/// keyword.
pub uninterp spec fn ident_ok(s: Seq<char>) -> bool;

/// Relies on `syn::parse_str::<syn::Ident>`: it succeeds exactly when the
/// whole string lexes to a single identifier other than a keyword or `_`.
#[verifier::external_body]
fn is_ident(s: &str) -> (r: bool)
    ensures
        r == ident_ok(s@),
{
    syn::parse_str::<syn::Ident>(s).is_ok()
}

/// The pieces of `rest` between `::` separators, the first of them
/// continuing `cur`.
pub open spec fn split_from(cur: Seq<char>, rest: Seq<char>) -> Seq<Seq<char>>
    decreases rest.len(),
{
    if rest.len() == 0 {
        seq![cur]
    } else if rest.len() >= 2 && rest[0] == ':' && rest[1] == ':' {
        seq![cur] + split_from(Seq::empty(), rest.skip(2))
    } else {
        split_from(cur.push(rest[0]), rest.skip(1))
    }
}

/// The segments of a path, split at each `::` from the left.
pub open spec fn segments_of(s: Seq<char>) -> Seq<Seq<char>> {
    split_from(Seq::empty(), s)
}

/// A path with one leading `::` taken off.
pub open spec fn unprefixed(s: Seq<char>) -> Seq<char> {
    if s.len() >= 2 && s[0] == ':' && s[1] == ':' {
        s.skip(2)
    } else {
        s
    }
}

pub open spec fn strings_model(v: Seq<String>) -> Seq<Seq<char>> {
    v.map_values(|s: String| s@)
}

/// Why a path is not a selector.
#[derive(Debug, PartialEq, Eq)]
pub enum FilterError {
    /// Nothing is left once a leading `::` is taken off.
    EmptyPath,
    /// The first segment that is not an identifier.
    InvalidSegment(String),
}

/// A `::`-separated path that addresses a declaration.
#[derive(Debug)]
pub struct Filter {
    path: String,
    segments: Vec<String>,
}

impl View for Filter {
    type V = Seq<Seq<char>>;

    closed spec fn view(&self) -> Seq<Seq<char>> {
        strings_model(self.segments@)
    }
}

fn split_path(s: &str) -> (r: Vec<String>)
    ensures
        strings_model(r@) == segments_of(s@),
{
    let n = s.unicode_len();
    let mut done: Vec<String> = Vec::new();
    let mut cur = String::new();
    let mut i: usize = 0;
    proof {
        assert(s@.skip(0) =~= s@);
        assert(strings_model(done@) =~= Seq::empty());
        assert(Seq::<Seq<char>>::empty() + split_from(Seq::empty(), s@) =~= split_from(
            Seq::empty(),
            s@,
        ));
    }
    while i < n
        invariant
            n == s@.len(),
            i <= n,
            segments_of(s@) == strings_model(done@) + split_from(cur@, s@.skip(i as int)),
        decreases n - i,
    {
        let c = s.get_char(i);
        let ghost rest = s@.skip(i as int);
        if c == ':' && i + 1 < n && s.get_char(i + 1) == ':' {
            proof {
                assert(rest.skip(2) =~= s@.skip(i + 2));
                assert(strings_model(done@.push(cur)) =~= strings_model(done@).push(cur@));
                assert(strings_model(done@) + (seq![cur@] + split_from(Seq::empty(), rest.skip(2)))
                    =~= strings_model(done@).push(cur@) + split_from(Seq::empty(), rest.skip(2)));
            }
            done.push(cur);
            cur = String::new();
            i = i + 2;
        } else {
            proof {
                assert(rest.skip(1) =~= s@.skip(i + 1));
            }
            push_char(&mut cur, c);
            i = i + 1;
        }
    }
    proof {
        assert(s@.skip(n as int) =~= Seq::<char>::empty());
        assert(strings_model(done@.push(cur)) =~= strings_model(done@).push(cur@));
        assert(strings_model(done@) + seq![cur@] =~= strings_model(done@).push(cur@));
    }
    done.push(cur);
    done
}

impl Filter {
    /// Parses a selector path. A leading `::` is the same as none. The path
    /// is refused when nothing is left of it, or else at its first segment
    /// that is not an identifier.
    pub fn from_str(input: &str) -> (r: Result<Filter, FilterError>)
        ensures
            ({
                let s = unprefixed(input@);
                let segs = segments_of(s);
                match r {
                    Ok(f) => s.len() > 0 && (forall|i: int|
                        0 <= i < segs.len() ==> ident_ok(#[trigger] segs[i])) && f@ == segs
                        && f.text() == input@,
                    Err(FilterError::EmptyPath) => s.len() == 0,
                    Err(FilterError::InvalidSegment(x)) => s.len() > 0 && exists|i: int|
                        0 <= i < segs.len() && !ident_ok(#[trigger] segs[i]) && x@ == segs[i]
                            && forall|j: int| 0 <= j < i ==> ident_ok(#[trigger] segs[j]),
                }
            }),
    {
        let n = input.unicode_len();
        let s = if n >= 2 && input.get_char(0) == ':' && input.get_char(1) == ':' {
            input.substring_char(2, n)
        } else {
            input
        };
        proof {
            if n >= 2 && input@[0] == ':' && input@[1] == ':' {
                assert(s@ =~= input@.skip(2));
            }
        }
        assert(s@ == unprefixed(input@));
        if s.unicode_len() == 0 {
            return Err(FilterError::EmptyPath);
        }
        let segments = split_path(s);
        let ghost segs = segments_of(s@);
        let mut i: usize = 0;
        while i < segments.len()
            invariant
                i <= segments@.len(),
                s@ == unprefixed(input@),
                s@.len() > 0,
                segs == segments_of(s@),
                strings_model(segments@) == segs,
                forall|j: int| 0 <= j < i ==> ident_ok(#[trigger] segs[j]),
            decreases segments@.len() - i,
        {
            assert(segs[i as int] == segments@[i as int]@);
            if !is_ident(segments[i].as_str()) {
                let bad = copy_string(&segments[i]);
                assert(!ident_ok(segs[i as int]) && bad@ == segs[i as int]);
                return Err(FilterError::InvalidSegment(bad));
            }
            i = i + 1;
        }
        Ok(Filter { path: input.to_owned(), segments })
    }

    /// The path as it was given.
    pub closed spec fn text(&self) -> Seq<char> {
        self.path@
    }

    /// The path as it was given.
    pub fn to_string(&self) -> (r: String)
        ensures
            r@ == self.text(),
    {
        copy_string(&self.path)
    }
}

/// Nodes of `s` whose name is `seg`, in order.
pub open spec fn with_name(s: Seq<NodeModel>, seg: Seq<char>) -> Seq<NodeModel>
    decreases s.len(),
{
    if s.len() == 0 {
        s
    } else {
        let rest = with_name(s.drop_last(), seg);
        if s.last().name == seg {
            rest.push(s.last())
        } else {
            rest
        }
    }
}

/// A trait member that has a default, and so can stand as a declaration.
pub open spec fn synthesizable(m: NodeModel) -> bool {
    &&& m.category == Category::TraitItem
    &&& m.has_body
    &&& (m.kind == Kind::Const || m.kind == Kind::Fn || m.kind == Kind::Type)
}

/// The declaration that a defaulted trait member stands for.
pub open spec fn to_item(m: NodeModel) -> NodeModel {
    NodeModel { category: Category::Item, ..m }
}

/// The defaulted members of a trait, as declarations.
pub open spec fn trait_defaults(s: Seq<NodeModel>) -> Seq<NodeModel>
    decreases s.len(),
{
    if s.len() == 0 {
        s
    } else {
        let rest = trait_defaults(s.drop_last());
        if synthesizable(s.last()) {
            rest.push(to_item(s.last()))
        } else {
            rest
        }
    }
}

pub open spec fn is_module(n: NodeModel) -> bool {
    n.category == Category::Item && n.kind == Kind::Mod
}

pub open spec fn is_trait(n: NodeModel) -> bool {
    n.category == Category::Item && n.kind == Kind::Trait
}

/// What a selected declaration opens onto: a module's contents, a trait's
/// defaulted members; nothing for any other declaration.
pub open spec fn expand(n: NodeModel) -> Seq<NodeModel> {
    if is_module(n) {
        n.children
    } else if is_trait(n) {
        trait_defaults(n.children)
    } else {
        Seq::empty()
    }
}

pub open spec fn expand_all(s: Seq<NodeModel>) -> Seq<NodeModel>
    decreases s.len(),
{
    if s.len() == 0 {
        s
    } else {
        expand_all(s.drop_last()) + expand(s.last())
    }
}

/// Follows `path` down from the selected declarations `cur`.
pub open spec fn descend(cur: Seq<NodeModel>, path: Seq<Seq<char>>) -> Seq<NodeModel>
    decreases path.len(),
{
    if path.len() == 0 {
        cur
    } else {
        descend(with_name(expand_all(cur), path[0]), path.skip(1))
    }
}

/// A lone module with content gives way to its contents.
pub open spec fn unwrapped(r: Seq<NodeModel>) -> Seq<NodeModel> {
    if r.len() == 1 && is_module(r[0]) && r[0].has_body {
        r[0].children
    } else {
        r
    }
}

/// The declarations that `path` addresses in a unit whose declarations
/// are `items`.
pub open spec fn selection(items: Seq<NodeModel>, path: Seq<Seq<char>>) -> Seq<NodeModel> {
    if path.len() == 0 {
        Seq::empty()
    } else {
        unwrapped(descend(with_name(items, path[0]), path.skip(1)))
    }
}

/// The unit narrowed to `path`: the addressed declarations, with no leading
/// directive and no unit attributes.
pub open spec fn narrowed(f: FileModel, path: Seq<Seq<char>>) -> FileModel {
    FileModel { shebang: None, attrs: Seq::empty(), items: selection(f.items, path) }
}

#[verifier::loop_isolation(false)]
fn keep_named(v: Vec<Node>, seg: &String) -> (r: Vec<Node>)
    ensures
        nodes_model(r@) == with_name(nodes_model(v@), seg@),
{
    let ghost orig = v;
    let mut v = v;
    let mut rev = take_reversed(&mut v);
    let mut out: Vec<Node> = Vec::new();
    let ghost n = rev@.len();
    proof {
        assert(orig@.subrange(0, 0) =~= Seq::<Node>::empty());
    }
    while rev.len() > 0
        invariant
            n == orig@.len(),
            rev@.len() <= n,
            forall|j: int| 0 <= j < rev@.len() ==> #[trigger] rev@[j] == orig@[n - 1 - j],
            nodes_model(out@) == with_name(nodes_model(orig@.subrange(0, n - rev@.len())), seg@),
        decreases rev@.len(),
    {
        let ghost k = n - rev@.len();
        let x = rev.pop().unwrap();
        proof {
            let pre = orig@.subrange(0, k);
            assert(orig@.subrange(0, k + 1) =~= pre.push(x));
            lemma_nodes_model_push(pre, x);
            assert(nodes_model(pre).push(node_model(x)).drop_last() =~= nodes_model(pre));
        }
        if str_eq(x.name.as_str(), seg.as_str()) {
            proof {
                lemma_nodes_model_push(out@, x);
            }
            out.push(x);
        }
    }
    assert(orig@.subrange(0, n as int) =~= orig@);
    out
}

fn is_synthesizable(m: &Node) -> (r: bool)
    ensures
        r == synthesizable(m@),
{
    match m.category {
        Category::TraitItem => m.has_body && match m.kind {
            Kind::Const | Kind::Fn | Kind::Type => true,
            _ => false,
        },
        _ => false,
    }
}

#[verifier::loop_isolation(false)]
fn defaults_of(v: Vec<Node>) -> (r: Vec<Node>)
    ensures
        nodes_model(r@) == trait_defaults(nodes_model(v@)),
{
    let ghost orig = v;
    let mut v = v;
    let mut rev = take_reversed(&mut v);
    let mut out: Vec<Node> = Vec::new();
    let ghost n = rev@.len();
    proof {
        assert(orig@.subrange(0, 0) =~= Seq::<Node>::empty());
    }
    while rev.len() > 0
        invariant
            n == orig@.len(),
            rev@.len() <= n,
            forall|j: int| 0 <= j < rev@.len() ==> #[trigger] rev@[j] == orig@[n - 1 - j],
            nodes_model(out@) == trait_defaults(nodes_model(orig@.subrange(0, n - rev@.len()))),
        decreases rev@.len(),
    {
        let ghost k = n - rev@.len();
        let x = rev.pop().unwrap();
        proof {
            let pre = orig@.subrange(0, k);
            assert(orig@.subrange(0, k + 1) =~= pre.push(x));
            lemma_nodes_model_push(pre, x);
            assert(nodes_model(pre).push(node_model(x)).drop_last() =~= nodes_model(pre));
        }
        if is_synthesizable(&x) {
            let Node { category, kind, name, has_body, attrs, head, children, tail } = x;
            let y = Node { category: Category::Item, kind, name, has_body, attrs, head, children, tail };
            proof {
                lemma_nodes_model_push(out@, y);
            }
            out.push(y);
        }
    }
    assert(orig@.subrange(0, n as int) =~= orig@);
    out
}

fn expand_node(n: Node) -> (r: Vec<Node>)
    ensures
        nodes_model(r@) == expand(n@),
{
    match n.category {
        Category::Item => match n.kind {
            Kind::Mod => n.children,
            Kind::Trait => defaults_of(n.children),
            _ => Vec::new(),
        },
        _ => Vec::new(),
    }
}

#[verifier::loop_isolation(false)]
fn expand_nodes(v: Vec<Node>) -> (r: Vec<Node>)
    ensures
        nodes_model(r@) == expand_all(nodes_model(v@)),
{
    let ghost orig = v;
    let mut v = v;
    let mut rev = take_reversed(&mut v);
    let mut out: Vec<Node> = Vec::new();
    let ghost n = rev@.len();
    proof {
        assert(orig@.subrange(0, 0) =~= Seq::<Node>::empty());
    }
    while rev.len() > 0
        invariant
            n == orig@.len(),
            rev@.len() <= n,
            forall|j: int| 0 <= j < rev@.len() ==> #[trigger] rev@[j] == orig@[n - 1 - j],
            nodes_model(out@) == expand_all(nodes_model(orig@.subrange(0, n - rev@.len()))),
        decreases rev@.len(),
    {
        let ghost k = n - rev@.len();
        let x = rev.pop().unwrap();
        proof {
            let pre = orig@.subrange(0, k);
            assert(orig@.subrange(0, k + 1) =~= pre.push(x));
            lemma_nodes_model_push(pre, x);
            assert(nodes_model(pre).push(node_model(x)).drop_last() =~= nodes_model(pre));
        }
        let mut e = expand_node(x);
        proof {
            lemma_nodes_model_concat(out@, e@);
        }
        out.append(&mut e);
    }
    assert(orig@.subrange(0, n as int) =~= orig@);
    out
}

fn is_open_module(n: &Node) -> (r: bool)
    ensures
        r == (is_module(n@) && n@.has_body),
{
    match n.category {
        Category::Item => n.has_body && match n.kind {
            Kind::Mod => true,
            _ => false,
        },
        _ => false,
    }
}

fn select_items(items: Vec<Node>, path: &Vec<String>) -> (r: Vec<Node>)
    ensures
        nodes_model(r@) == selection(nodes_model(items@), strings_model(path@)),
{
    broadcast use crate::tree::lemma_nodes_model_len, crate::tree::lemma_nodes_model_index;

    let ghost p = strings_model(path@);
    if path.len() == 0 {
        return Vec::new();
    }
    let mut cur = keep_named(items, &path[0]);
    let mut i: usize = 1;
    proof {
        assert(p.skip(1).skip(0) =~= p.skip(1));
    }
    while i < path.len()
        invariant
            p == strings_model(path@),
            1 <= i <= path@.len(),
            descend(with_name(nodes_model(items@), p[0]), p.skip(1)) == descend(
                nodes_model(cur@),
                p.skip(i as int),
            ),
        decreases path@.len() - i,
    {
        proof {
            assert(p.skip(i as int).skip(1) =~= p.skip(i + 1));
            assert(p.skip(i as int)[0] == path@[i as int]@);
        }
        let expanded = expand_nodes(cur);
        cur = keep_named(expanded, &path[i]);
        i = i + 1;
    }
    proof {
        assert(p.skip(i as int) =~= Seq::<Seq<char>>::empty());
    }
    if cur.len() == 1 && is_open_module(&cur[0]) {
        let mut cur = cur;
        let only = cur.pop().unwrap();
        proof {
            assert(nodes_model(cur@.push(only)) == nodes_model(cur@).push(node_model(only))) by {
                lemma_nodes_model_push(cur@, only);
            }
            assert(cur@.push(only).drop_last() =~= cur@);
        }
        let Node { category, kind, name, has_body, attrs, head, children, tail } = only;
        children
    } else {
        cur
    }
}

/// Narrows the unit to the declarations that `filter` addresses: each
/// segment opens the declarations selected so far and keeps those of that
/// name; a lone module with content gives way to its contents. The leading
/// directive and the unit attributes are dropped.
pub fn filter(syntax_tree: &mut File, filter: &Filter)
    ensures
        final(syntax_tree)@ == narrowed(old(syntax_tree)@, filter@),
{
    let mut items: Vec<Node> = Vec::new();
    core::mem::swap(&mut items, &mut syntax_tree.items);
    let items = select_items(items, &filter.segments);
    syntax_tree.shebang = None;
    syntax_tree.attrs = Vec::new();
    syntax_tree.items = items;
    proof {
        assert(crate::tree::attrs_model(syntax_tree.attrs@) =~= Seq::empty());
    }
}

proof fn lemma_with_name_none(s: Seq<NodeModel>, seg: Seq<char>)
    requires
        forall|j: int| 0 <= j < s.len() ==> (#[trigger] s[j]).name != seg,
    ensures
        with_name(s, seg) == Seq::<NodeModel>::empty(),
    decreases s.len(),
{
    if s.len() > 0 {
        lemma_with_name_none(s.drop_last(), seg);
        assert(s[s.len() - 1].name != seg);
    }
}

proof fn lemma_with_name_unique(s: Seq<NodeModel>, seg: Seq<char>, a: int)
    requires
        0 <= a < s.len(),
        s[a].name == seg,
        forall|j: int| 0 <= j < s.len() && j != a ==> (#[trigger] s[j]).name != seg,
    ensures
        with_name(s, seg) == seq![s[a]],
    decreases s.len(),
{
    let t = s.drop_last();
    if a == s.len() - 1 {
        assert forall|j: int| 0 <= j < t.len() implies (#[trigger] t[j]).name != seg by {
            assert(t[j] == s[j]);
        }
        lemma_with_name_none(t, seg);
        assert(Seq::<NodeModel>::empty().push(s[a]) =~= seq![s[a]]);
    } else {
        assert(s[s.len() - 1].name != seg);
        lemma_with_name_unique(t, seg, a);
    }
}

proof fn lemma_with_name_defaults(s: Seq<NodeModel>, seg: Seq<char>)
    ensures
        with_name(trait_defaults(s), seg) == trait_defaults(with_name(s, seg)),
    decreases s.len(),
{
    if s.len() > 0 {
        let t = s.drop_last();
        let x = s.last();
        lemma_with_name_defaults(t, seg);
        let tdt = trait_defaults(t);
        if synthesizable(x) {
            assert(tdt.push(to_item(x)).drop_last() =~= tdt);
        }
        let wt = with_name(t, seg);
        if x.name == seg {
            assert(wt.push(x).drop_last() =~= wt);
        }
    }
}

proof fn lemma_expand_one(n: NodeModel)
    ensures
        expand_all(seq![n]) == expand(n),
{
    let e = Seq::<NodeModel>::empty();
    assert(expand_all(e) == e);
    assert(seq![n].drop_last() =~= e);
    assert(seq![n].last() == n);
    assert(e + expand(n) =~= expand(n));
}

/// Selecting `outer::inner`, where `outer` names exactly one declaration of
/// the unit, a module, and `inner` names exactly one declaration in that
/// module, a module with content, gives the inner module's members, not the
/// module itself.
pub proof fn lemma_select_module_contents(
    items: Seq<NodeModel>,
    outer: Seq<char>,
    inner: Seq<char>,
    a: int,
    b: int,
)
    requires
        0 <= a < items.len(),
        items[a].name == outer,
        is_module(items[a]),
        forall|j: int| 0 <= j < items.len() && j != a ==> (#[trigger] items[j]).name != outer,
        0 <= b < items[a].children.len(),
        items[a].children[b].name == inner,
        is_module(items[a].children[b]),
        items[a].children[b].has_body,
        forall|j: int|
            0 <= j < items[a].children.len() && j != b ==> (#[trigger] items[a].children[j]).name
                != inner,
    ensures
        selection(items, seq![outer, inner]) == items[a].children[b].children,
{
    let m = items[a];
    let path = seq![outer, inner];
    lemma_with_name_unique(items, outer, a);
    lemma_expand_one(m);
    lemma_with_name_unique(m.children, inner, b);
    let child = m.children[b];
    assert(path[0] == outer);
    assert(path.skip(1) =~= seq![inner]);
    assert(seq![inner][0] == inner);
    assert(seq![inner].skip(1) =~= Seq::<Seq<char>>::empty());
    assert(with_name(expand_all(seq![m]), inner) == seq![child]);
    assert(descend(seq![child], Seq::<Seq<char>>::empty()) == seq![child]);
    assert(descend(seq![m], seq![inner]) == seq![child]);
    assert(unwrapped(seq![child]) == child.children);
}

/// Selecting `t::m`, where `t` names exactly one declaration of the unit, a
/// trait, and `m` names exactly one of its members: a member with a default
/// gives that member as a standalone declaration; a member without one
/// gives nothing.
pub proof fn lemma_select_trait_member(
    items: Seq<NodeModel>,
    t: Seq<char>,
    m: Seq<char>,
    a: int,
    b: int,
)
    requires
        0 <= a < items.len(),
        items[a].name == t,
        is_trait(items[a]),
        forall|j: int| 0 <= j < items.len() && j != a ==> (#[trigger] items[j]).name != t,
        0 <= b < items[a].children.len(),
        items[a].children[b].name == m,
        forall|j: int|
            0 <= j < items[a].children.len() && j != b ==> (#[trigger] items[a].children[j]).name
                != m,
    ensures
        selection(items, seq![t, m]) == if synthesizable(items[a].children[b]) {
            seq![to_item(items[a].children[b])]
        } else {
            Seq::<NodeModel>::empty()
        },
{
    let tr = items[a];
    let member = tr.children[b];
    let path = seq![t, m];
    lemma_with_name_unique(items, t, a);
    lemma_expand_one(tr);
    lemma_with_name_defaults(tr.children, m);
    lemma_with_name_unique(tr.children, m, b);
    if synthesizable(member) {
        assert(Seq::<NodeModel>::empty().push(to_item(member)) =~= seq![to_item(member)]);
    }
    let res = if synthesizable(member) {
        seq![to_item(member)]
    } else {
        Seq::<NodeModel>::empty()
    };
    let e = Seq::<NodeModel>::empty();
    assert(trait_defaults(e) == e);
    assert(seq![member].drop_last() =~= e);
    assert(seq![member].last() == member);
    assert(trait_defaults(seq![member]) == res);
    assert(path[0] == t);
    assert(path.skip(1) =~= seq![m]);
    assert(seq![m][0] == m);
    assert(seq![m].skip(1) =~= Seq::<Seq<char>>::empty());
    assert(with_name(expand_all(seq![tr]), m) == res);
    assert(descend(res, Seq::<Seq<char>>::empty()) == res);
    assert(descend(seq![tr], seq![m]) == res);
    assert(unwrapped(res) == res);
}

} // verus!
