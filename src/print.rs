//! Token text of the node model, the input of a rendering primitive.
use vstd::prelude::*;
use crate::text::push_str;
use crate::tree::{
    attrs_model, lemma_nodes_model_index, lemma_nodes_model_len, nodes_model, Attr, AttrModel, File,
    FileModel, Kind, Node, NodeModel,
};

verus! {

broadcast use vstd::std_specs::vec::group_vec_axioms;

/// The text of the elided placeholder.
pub open spec fn ellipsis() -> Seq<char> {
    "..."@
}

pub open spec fn attrs_text(s: Seq<AttrModel>) -> Seq<char>
    decreases s.len(),
{
    if s.len() == 0 {
        Seq::empty()
    } else {
        attrs_text(s.drop_last()) + s.last().text + " "@
    }
}

/// The token text of a node: its attributes, head, children and tail, each
/// followed by a space; a placeholder is the ellipsis alone.
pub open spec fn node_text(n: NodeModel) -> Seq<char>
    decreases n,
{
    if n.kind == Kind::Placeholder {
        ellipsis()
    } else {
        attrs_text(n.attrs) + n.head + " "@ + nodes_text(n.children) + n.tail
    }
}

pub open spec fn nodes_text(s: Seq<NodeModel>) -> Seq<char>
    decreases s,
{
    if s.len() == 0 {
        Seq::empty()
    } else {
        nodes_text(s.drop_last()) + node_text(s.last()) + " "@
    }
}

/// The token text of a unit: the leading directive on a line of its own,
/// then the unit attributes, then the declarations.
pub open spec fn file_text(f: FileModel) -> Seq<char> {
    match f.shebang {
        Some(s) => s + "\n"@ + attrs_text(f.attrs) + nodes_text(f.items),
        None => attrs_text(f.attrs) + nodes_text(f.items),
    }
}

fn write_attrs(out: &mut String, attrs: &Vec<Attr>)
    ensures
        final(out)@ == old(out)@ + attrs_text(attrs_model(attrs@)),
{
    let ghost start = out@;
    let mut i: usize = 0;
    while i < attrs.len()
        invariant
            i <= attrs@.len(),
            out@ == start + attrs_text(attrs_model(attrs@.subrange(0, i as int))),
        decreases attrs@.len() - i,
    {
        proof {
            let pre = attrs@.subrange(0, i as int);
            let next = attrs@.subrange(0, i + 1);
            assert(attrs_model(next).drop_last() =~= attrs_model(pre));
            assert(attrs_model(next).last() == attrs@[i as int]@);
        }
        push_str(out, attrs[i].text.as_str());
        push_str(out, " ");
        i = i + 1;
    }
    assert(attrs@.subrange(0, attrs@.len() as int) =~= attrs@);
}

fn write_node(out: &mut String, n: &Node)
    ensures
        final(out)@ == old(out)@ + node_text(n@),
    decreases n,
{
    match n.kind {
        Kind::Placeholder => {
            push_str(out, "...");
        },
        _ => {
            let ghost start = out@;
            write_attrs(out, &n.attrs);
            push_str(out, n.head.as_str());
            push_str(out, " ");
            assert(decreases_to!(n => n.children));
            write_nodes(out, &n.children);
            push_str(out, n.tail.as_str());
        },
    }
}

#[verifier::loop_isolation(false)]
fn write_nodes(out: &mut String, v: &Vec<Node>)
    ensures
        final(out)@ == old(out)@ + nodes_text(nodes_model(v@)),
    decreases v,
{
    broadcast use lemma_nodes_model_len, lemma_nodes_model_index;

    let ghost start = out@;
    let mut i: usize = 0;
    while i < v.len()
        invariant
            i <= v@.len(),
            out@ == start + nodes_text(nodes_model(v@.subrange(0, i as int))),
        decreases v@.len() - i,
    {
        proof {
            let pre = nodes_model(v@.subrange(0, i as int));
            let next = nodes_model(v@.subrange(0, i + 1));
            assert(next.drop_last() =~= pre);
            assert(next.last() == v@[i as int]@);
            assert(decreases_to!(v => v@[i as int]));
        }
        write_node(out, &v[i]);
        push_str(out, " ");
        i = i + 1;
    }
    assert(v@.subrange(0, v@.len() as int) =~= v@);
}

/// The token text of a unit.
pub fn to_tokens(f: &File) -> (r: String)
    ensures
        r@ == file_text(f@),
{
    let mut out = String::new();
    match &f.shebang {
        Some(s) => {
            push_str(&mut out, s.as_str());
            push_str(&mut out, "\n");
        },
        None => {},
    }
    write_attrs(&mut out, &f.attrs);
    write_nodes(&mut out, &f.items);
    out
}

} // verus!
