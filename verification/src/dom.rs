//! An arena model of a markup document: nodes indexed by integer id, each
//! with an ordered list of child ids. Mutation is by id lookup, so no
//! shared-mutable handles are needed. The rewriter below visits every text
//! node, applies the conversion pipeline, and never disturbs tags,
//! attributes or node ordering.

use vstd::prelude::*;

use crate::pipeline::{convert_str, rewritten_text};
use crate::punct::has_mapped;

verus! {

/// One attribute of an element, as plain strings.
pub struct Attr {
    pub ns: String,
    pub prefix: Option<String>,
    pub name: String,
    pub value: String,
}

/// What a node is, with the plain contents the rewriter reads.
pub enum NodeKind {
    Document,
    Doctype { name: String, public_id: String, system_id: String },
    Element { ns: String, name: String },
    Text { content: String },
    Comment { content: String },
    Pi { target: String, content: String },
}

/// One node of the arena: its kind, its attributes (empty unless it is an
/// element), and the ids of its children, in document order.
pub struct DomNode {
    pub kind: NodeKind,
    pub attrs: Vec<Attr>,
    pub children: Vec<usize>,
}

/// A whole document: an arena of nodes. The root is the node with id 0.
pub struct DomTree {
    pub nodes: Vec<DomNode>,
}

/// Every child id points into the arena.
pub open spec fn wf_tree(t: DomTree) -> bool {
    forall|i: int, j: int|
        0 <= i < t.nodes@.len() && 0 <= j < t.nodes@[i].children@.len()
            ==> (#[trigger] t.nodes@[i].children@[j]) < t.nodes@.len()
}

/// Whether a node kind is a text node whose content the table recognizes
/// somewhere, so that one conversion cycle changes it.
pub open spec fn is_text_mapped(k: NodeKind) -> bool {
    match k {
        NodeKind::Text { content } => has_mapped(content@),
        _ => false,
    }
}

/// How one conversion cycle rewrites a node kind: a text node's content
/// becomes its rewritten text; every other kind is left exactly as it
/// was.
pub open spec fn kind_rewritten(old_k: NodeKind, new_k: NodeKind) -> bool {
    match old_k {
        NodeKind::Text { content } => match new_k {
            NodeKind::Text { content: nc } => nc@ == rewritten_text(content@),
            _ => false,
        },
        _ => new_k == old_k,
    }
}

/// Applies the conversion pipeline to every text node of the arena, in
/// place, and reports whether anything changed. Node count, child lists
/// and attributes are untouched, and non-text nodes are left exactly as
/// they were; in particular, a tree whose text nodes contain no
/// recognized punctuation is reported unchanged.
pub fn rewrite_texts(tree: &mut DomTree) -> (changed: bool)
    ensures
        final(tree).nodes@.len() == old(tree).nodes@.len(),
        forall|i: int|
            0 <= i < old(tree).nodes@.len() ==> {
                &&& (#[trigger] final(tree).nodes@[i]).children == old(tree).nodes@[i].children
                &&& final(tree).nodes@[i].attrs == old(tree).nodes@[i].attrs
                &&& kind_rewritten(old(tree).nodes@[i].kind, final(tree).nodes@[i].kind)
            },
        changed <==> exists|i: int|
            0 <= i < old(tree).nodes@.len() && is_text_mapped(
                #[trigger] old(tree).nodes@[i].kind,
            ),
{
    let mut changed: bool = false;
    let n = tree.nodes.len();
    let mut i: usize = 0;
    while i < n
        invariant
            n == old(tree).nodes@.len(),
            i <= n,
            tree.nodes@.len() == n,
            forall|k: int|
                0 <= k < i ==> {
                    &&& (#[trigger] tree.nodes@[k]).children == old(tree).nodes@[k].children
                    &&& tree.nodes@[k].attrs == old(tree).nodes@[k].attrs
                    &&& kind_rewritten(old(tree).nodes@[k].kind, tree.nodes@[k].kind)
                },
            forall|k: int| i <= k < n ==> #[trigger] tree.nodes@[k] == old(tree).nodes@[k],
            changed <==> exists|k: int|
                0 <= k < i && is_text_mapped(#[trigger] old(tree).nodes@[k].kind),
        decreases n - i,
    {
        let upd: Option<String> = match &tree.nodes[i].kind {
            NodeKind::Text { content } => convert_str(content.as_str()),
            _ => None,
        };
        match upd {
            Some(new_content) => {
                let node = &mut tree.nodes[i];
                node.kind = NodeKind::Text { content: new_content };
                changed = true;
            },
            None => {
            },
        }
        i = i + 1;
    }
    changed
}

} // verus!
