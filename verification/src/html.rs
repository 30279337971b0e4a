//! The document rewriter: parses markup bytes into a DOM tree, mirrors the
//! tree into the arena model, applies the conversion pipeline to every
//! text node, writes changed text back into the tree, and serializes it
//! again only when something changed. The parser and serializer are
//! html5ever with markup5ever_rcdom; each call into them stands behind a
//! small trusted wrapper.

use vstd::prelude::*;

use std::rc::Rc;

use html5ever::tendril::TendrilSink;
use markup5ever_rcdom::NodeData;

use crate::dom::{wf_tree, Attr, DomNode, DomTree, NodeKind};
use crate::dom::rewrite_texts;

verus! {

/// The byte stream was not well-formed UTF-8, so no document could be
/// parsed from it; the caller must leave the original untouched.
#[derive(Debug, PartialEq, Eq, Structural)]
pub struct ParseError;

/// markup5ever_rcdom's `Node`, declared opaquely so that tree handles can
/// pass through signatures; nothing inside a node is visible here, every
/// read goes through the wrappers below.
#[verifier::external_type_specification]
#[verifier::external_body]
pub struct ExNode(markup5ever_rcdom::Node);

/// Upper bound on the lengths handed to the parser, in bytes or in
/// characters. The parser's string storage holds lengths in 32 bits and
/// asserts on anything longer; a character occupies at most four UTF-8
/// bytes, so a string of at most this many characters always fits.
/// Clipboard-sized documents stand far below it.
pub const LENGTH_LIMIT: usize = 0x3fff_ffff;

/// Relies on std's `str::from_utf8`: it returns `Ok` exactly on
/// well-formed UTF-8, and the result holds the bytes' decoded
/// characters, as vstd's UTF-8 specification states them.
#[verifier::external_body]
fn utf8_to_string(bytes: &Vec<u8>) -> (r: Option<String>)
    ensures
        r is Some <==> vstd::utf8::valid_utf8(bytes@),
        r matches Some(s) ==> s@ == vstd::utf8::decode_utf8(bytes@),
{
    std::str::from_utf8(bytes.as_slice()).ok().map(|s| s.to_string())
}

/// A UTF-8 encoding never holds more characters than bytes: every scalar
/// occupies at least one byte.
proof fn lemma_decoded_no_longer(bytes: Seq<u8>)
    requires
        vstd::utf8::valid_utf8(bytes),
    ensures
        vstd::utf8::decode_utf8(bytes).len() <= bytes.len(),
    decreases bytes.len(),
{
    if bytes.len() != 0 {
        assert(1 <= vstd::utf8::length_of_first_scalar(bytes) <= bytes.len());
        lemma_decoded_no_longer(vstd::utf8::pop_first_scalar(bytes));
    }
}

/// Relies on html5ever's `parse_document` driven into
/// markup5ever_rcdom's `RcDom`: parses the string as a full HTML document
/// and hands back the document node of the resulting tree. The parser is
/// total and repairs as the standard demands; the length bound keeps the
/// string within its storage's 32-bit limit, under which it returns
/// normally.
#[verifier::external_body]
fn parse_html_str(s: &str) -> (r: Rc<markup5ever_rcdom::Node>)
    requires
        s@.len() <= LENGTH_LIMIT,
{
    let dom = html5ever::parse_document(
        markup5ever_rcdom::RcDom::default(),
        html5ever::ParseOpts::default(),
    ).one(s);
    dom.document
}

/// Relies on markup5ever_rcdom's `Node`: hands out the node's children,
/// cloned out of their cell, in document order.
#[verifier::external_body]
fn node_children(h: &Rc<markup5ever_rcdom::Node>) -> (r: Vec<Rc<markup5ever_rcdom::Node>>)
{
    h.children.borrow().clone()
}

/// Relies on markup5ever_rcdom's `NodeData`: which kind of node this is,
/// with its plain contents, one arm per variant.
#[verifier::external_body]
fn node_info(h: &Rc<markup5ever_rcdom::Node>) -> (r: NodeKind)
{
    match &h.data {
        NodeData::Document => NodeKind::Document,
        NodeData::Doctype { name, public_id, system_id } => NodeKind::Doctype { name: name.to_string(), public_id: public_id.to_string(), system_id: system_id.to_string() },
        NodeData::Text { contents } => NodeKind::Text { content: contents.borrow().to_string() },
        NodeData::Comment { contents } => NodeKind::Comment { content: contents.to_string() },
        NodeData::Element { name, .. } => NodeKind::Element { ns: name.ns.to_string(), name: name.local.to_string() },
        NodeData::ProcessingInstruction { target, contents } => NodeKind::Pi { target: target.to_string(), content: contents.to_string() },
    }
}

/// Relies on markup5ever_rcdom's `NodeData::Element`: the element's
/// attributes as plain strings, in order; empty for any other kind.
#[verifier::external_body]
fn node_attrs(h: &Rc<markup5ever_rcdom::Node>) -> (r: Vec<Attr>)
{
    match &h.data {
        NodeData::Element { attrs, .. } => attrs.borrow().iter().map(
            |a| Attr { ns: a.name.ns.to_string(), prefix: a.name.prefix.as_ref().map(|p| p.to_string()), name: a.name.local.to_string(), value: a.value.to_string() },
        ).collect(),
        _ => Vec::new(),
    }
}

/// Relies on markup5ever_rcdom's `NodeData::Text`: replaces the node's
/// text content in place; any other kind is left alone. The length bound
/// keeps the new content within the text storage's 32-bit limit, under
/// which the call returns normally.
#[verifier::external_body]
fn set_node_text(h: &Rc<markup5ever_rcdom::Node>, s: &str)
    requires
        s@.len() <= LENGTH_LIMIT,
{
    if let NodeData::Text { contents } = &h.data {
        *contents.borrow_mut() = html5ever::tendril::StrTendril::from(s);
    }
}

/// Relies on html5ever's `serialize` over markup5ever_rcdom's
/// `SerializableHandle`: writes the tree rooted at the document node back
/// out as markup, preserving tag names, attributes and ordering.
#[verifier::external_body]
fn serialize_node(h: &Rc<markup5ever_rcdom::Node>) -> (r: Option<String>)
{
    let mut out: Vec<u8> = Vec::new();
    let sh = markup5ever_rcdom::SerializableHandle::from(h.clone());
    html5ever::serialize(&mut out, &sh, html5ever::serialize::SerializeOpts::default()).ok()?;
    String::from_utf8(out).ok()
}

/// Mirrors the parsed tree into the arena model, breadth first. The
/// result pairs the arena with, for each id, the tree node it was read
/// from, so that changed text can be written back by id. Every child id
/// exceeds its parent's id, so the arena is acyclic.
fn flatten(root: &Rc<markup5ever_rcdom::Node>) -> (r: (DomTree, Vec<Rc<markup5ever_rcdom::Node>>))
    ensures
        r.0.nodes@.len() == r.1@.len(),
        wf_tree(r.0),
        forall|a: int, b: int|
            0 <= a < r.0.nodes@.len() && 0 <= b < r.0.nodes@[a].children@.len()
                ==> (#[trigger] r.0.nodes@[a].children@[b]) > a,
{
    let mut nodes: Vec<DomNode> = Vec::new();
    let mut handles: Vec<Rc<markup5ever_rcdom::Node>> = Vec::new();
    nodes.push(DomNode { kind: node_info(root), attrs: node_attrs(root), children: Vec::new() });
    handles.push(root.clone());
    let mut i: usize = 0;
    while i < handles.len()
        invariant
            nodes@.len() == handles@.len(),
            i <= handles@.len(),
            forall|a: int, b: int|
                0 <= a < nodes@.len() && 0 <= b < nodes@[a].children@.len()
                    ==> a < (#[trigger] nodes@[a].children@[b]) < nodes@.len(),
        decreases usize::MAX - i,
    {
        let cs = node_children(&handles[i]);
        let mut j: usize = 0;
        while j < cs.len()
            invariant
                nodes@.len() == handles@.len(),
                i < nodes@.len(),
                j <= cs@.len(),
                forall|a: int, b: int|
                    0 <= a < nodes@.len() && 0 <= b < nodes@[a].children@.len()
                        ==> a < (#[trigger] nodes@[a].children@[b]) < nodes@.len(),
            decreases cs@.len() - j,
        {
            let idx = nodes.len();
            nodes.push(
                DomNode { kind: node_info(&cs[j]), attrs: node_attrs(&cs[j]), children: Vec::new() },
            );
            handles.push(cs[j].clone());
            let parent = &mut nodes[i];
            parent.children.push(idx);
            j = j + 1;
        }
        i = i + 1;
    }
    (DomTree { nodes }, handles)
}

/// Parses markup bytes, converts the punctuation of every text node
/// independently, and serializes the tree again only when some node
/// changed. `Err` exactly when the bytes are not well-formed UTF-8;
/// `Ok(None)` when nothing changed, so the caller keeps the original
/// markup untouched. A failure after a change — the serializer refusing,
/// or a converted text node outgrowing the parser's storage limit —
/// discards the whole mutation and also reports no change: partial
/// output is never emitted. The length bound on the input is a machine
/// limit of the parser's storage; clipboard-sized documents stand far
/// below it.
///
/// Which `Ok` variant comes back cannot be promised over the input
/// alone: the parser decodes character references, so even ASCII-only
/// markup can parse to text nodes holding recognized punctuation, and
/// the parsed tree reaches this function only as opaque handles whose
/// contents sit behind interior-mutable cells. What happens to every
/// text node is pinned instead by `rewrite_texts`, whose contract fixes
/// the whole arena.
pub fn rewrite(input: &Vec<u8>) -> (r: Result<Option<String>, ParseError>)
    requires
        input@.len() <= LENGTH_LIMIT,
    ensures
        r is Err <==> !vstd::utf8::valid_utf8(input@),
{
    let text = match utf8_to_string(input) {
        Some(t) => t,
        None => {
            return Err(ParseError);
        },
    };
    proof {
        lemma_decoded_no_longer(input@);
    }
    let root = parse_html_str(text.as_str());
    let (mut tree, handles) = flatten(&root);
    let changed = rewrite_texts(&mut tree);
    if !changed {
        return Ok(None);
    }
    let mut i: usize = 0;
    while i < tree.nodes.len()
        invariant
            tree.nodes@.len() == handles@.len(),
            vstd::utf8::valid_utf8(input@),
        decreases tree.nodes@.len() - i,
    {
        match &tree.nodes[i].kind {
            NodeKind::Text { content } => {
                if content.as_str().unicode_len() <= LENGTH_LIMIT {
                    set_node_text(&handles[i], content.as_str());
                } else {
                    return Ok(None);
                }
            },
            _ => {
            },
        }
        i = i + 1;
    }
    match serialize_node(&root) {
        Some(out) => Ok(Some(out)),
        None => Ok(None),
    }
}

} // verus!
