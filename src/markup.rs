//! Markup trees and their rendering as light markdown-like text.

use vstd::prelude::*;
use crate::text::{lower_of, lowercase};
use markup5ever_rcdom::{Handle, NodeData, RcDom};
use xml5ever::driver::{parse_document, XmlParseOpts};
use xml5ever::tendril::TendrilSink;

verus! {

broadcast use vstd::std_specs::vec::group_vec_axioms;

#[verifier::external_type_specification]
#[verifier::external_body]
pub struct ExDomNode(markup5ever_rcdom::Node);

/// The tree that xml5ever builds for a document.
pub uninterp spec fn xml_tree_of(doc: Seq<char>) -> MarkupNode;

#[derive(Clone, Debug)]
/// An attribute of an element: its local name and its value.
pub struct Attribute {
    pub name: String,
    pub value: String,
}

/// One node of a parsed markup tree.
pub enum MarkupNode {
    Document { children: Vec<MarkupNode> },
    Text { text: String },
    Element { name: String, attrs: Vec<Attribute>, children: Vec<MarkupNode> },
    Comment,
    /// A node of a kind that the converter does not render (a doctype, a
    /// processing instruction).
    Other,
}

/// The value of the first attribute named `href` among `attrs[i..]`.
pub open spec fn first_href(attrs: Seq<Attribute>, i: int) -> Option<Seq<char>>
    decreases attrs.len() - i,
{
    if i < 0 || i >= attrs.len() {
        None
    } else if attrs[i].name@ == "href"@ {
        Some(attrs[i].value@)
    } else {
        first_href(attrs, i + 1)
    }
}

/// How an element with lowercased tag `tag` frames the text of its children.
pub open spec fn frame(tag: Seq<char>, href: Option<Seq<char>>, inner: Seq<char>) -> Seq<char> {
    if tag == "a"@ {
        match href {
            Some(h) => "["@ + inner + "]("@ + h + ")"@,
            None => inner,
        }
    } else if tag == "b"@ || tag == "strong"@ {
        "**"@ + inner + "**"@
    } else if tag == "p"@ {
        inner + "\n"@
    } else if tag == "br"@ {
        "\n\n"@ + inner
    } else {
        inner
    }
}

/// The text of a node.
pub open spec fn render(n: MarkupNode) -> Seq<char>
    decreases n, 0int,
{
    match n {
        MarkupNode::Document { children } => render_all(children@, children@.len() as int),
        MarkupNode::Text { text } => text@,
        MarkupNode::Element { name, attrs, children } => frame(
            lower_of(name@),
            first_href(attrs@, 0),
            render_all(children@, children@.len() as int),
        ),
        MarkupNode::Comment => Seq::empty(),
        MarkupNode::Other => Seq::empty(),
    }
}

/// The texts of the first `k` nodes of `s`, concatenated.
pub open spec fn render_all(s: Seq<MarkupNode>, k: int) -> Seq<char>
    decreases s, k,
{
    if k <= 0 || k > s.len() {
        Seq::empty()
    } else {
        render_all(s, k - 1) + render(s[k - 1])
    }
}

/// Relies on xml5ever's `parse_document` with markup5ever_rcdom's `RcDom`
/// sink: the tree of `doc`, converted node for node. The parser recovers from
/// malformed input and never fails on a string.
#[verifier::external_body]
pub(crate) fn parse_xml(doc: &str) -> (r: MarkupNode)
    ensures
        r == xml_tree_of(doc@),
{
    let dom = parse_document(RcDom::default(), XmlParseOpts::default()).one(doc);
    from_dom(&dom.document)
}

/// Carries an `RcDom` node over into a `MarkupNode`, one node for one node,
/// keeping local names, attribute values and text as they are.
#[verifier::external_body]
fn from_dom(handle: &Handle) -> MarkupNode {
    let children = || handle.children.borrow().iter().map(from_dom).collect::<Vec<_>>();
    match &handle.data {
        NodeData::Document => MarkupNode::Document { children: children() },
        NodeData::Text { contents } => MarkupNode::Text { text: contents.borrow().to_string() },
        NodeData::Element { name, attrs, .. } => MarkupNode::Element {
            name: name.local.to_string(),
            attrs: attrs.borrow().iter().map(|a| Attribute {
                name: a.name.local.to_string(),
                value: a.value.to_string(),
            }).collect(),
            children: children(),
        },
        NodeData::Comment { .. } => MarkupNode::Comment,
        _ => MarkupNode::Other,
    }
}

fn first_href_exec(attrs: &Vec<Attribute>) -> (r: Option<&String>)
    ensures
        r matches Some(h) ==> first_href(attrs@, 0) == Some(h@),
        r is None ==> first_href(attrs@, 0) is None,
{
    let href = String::from_str("href");
    let mut i: usize = attrs.len();
    let mut found: Option<&String> = None;
    while i > 0
        invariant
            i <= attrs.len(),
            href@ == "href"@,
            found matches Some(h) ==> first_href(attrs@, i as int) == Some(h@),
            found is None ==> first_href(attrs@, i as int) is None,
        decreases i,
    {
        i = i - 1;
        if attrs[i].name == href {
            found = Some(&attrs[i].value);
        }
    }
    found
}

/// Renders a markup tree as text: links as `[text](href)`, bold as
/// `**text**`, a paragraph followed by a newline, a line break as a blank
/// line before what follows it; other tags keep only their content, comments
/// and nodes of other kinds give nothing.
pub fn node_to_markdown(node: &MarkupNode) -> (r: String)
    ensures
        r@ == render(*node),
    decreases node,
{
    match node {
        MarkupNode::Document { children } => render_children(children),
        MarkupNode::Text { text } => text.clone(),
        MarkupNode::Element { name, attrs, children } => {
            let inner = render_children(children);
            let tag = lowercase(name.as_str());
            if tag == String::from_str("a") {
                match first_href_exec(attrs) {
                    Some(h) => {
                        let mut out = String::from_str("[");
                        out.append(inner.as_str());
                        out.append("](");
                        out.append(h.as_str());
                        out.append(")");
                        out
                    },
                    None => inner,
                }
            } else if tag == String::from_str("b") || tag == String::from_str("strong") {
                let mut out = String::from_str("**");
                out.append(inner.as_str());
                out.append("**");
                out
            } else if tag == String::from_str("p") {
                let mut out = inner;
                out.append("\n");
                out
            } else if tag == String::from_str("br") {
                let mut out = String::from_str("\n\n");
                out.append(inner.as_str());
                out
            } else {
                inner
            }
        },
        MarkupNode::Comment => String::new(),
        MarkupNode::Other => String::new(),
    }
}

fn render_children(children: &Vec<MarkupNode>) -> (r: String)
    ensures
        r@ == render_all(children@, children@.len() as int),
    decreases children,
{
    let mut out = String::new();
    let mut i: usize = 0;
    while i < children.len()
        invariant
            i <= children.len(),
            out@ == render_all(children@, i as int),
        decreases children.len() - i,
    {
        let piece = node_to_markdown(&children[i]);
        out.append(piece.as_str());
        i = i + 1;
    }
    out
}

/// A fragment wrapped in a synthetic `<body>` root, so that it parses as a
/// document.
pub open spec fn wrapped(fragment: Seq<char>) -> Seq<char> {
    "<body>"@ + fragment + "</body>"@
}

/// Wraps `fragment` in a `<body>` root, parses it and renders the tree.
pub fn convert_fragment(fragment: &str) -> (r: String)
    ensures
        r@ == render(xml_tree_of(wrapped(fragment@))),
{
    let mut doc = String::from_str("<body>");
    doc.append(fragment);
    doc.append("</body>");
    let tree = parse_xml(doc.as_str());
    node_to_markdown(&tree)
}

/// Every node of `s` is a text node.
pub open spec fn all_text(s: Seq<MarkupNode>) -> bool {
    forall|i: int| 0 <= i < s.len() ==> #[trigger] s[i] is Text
}

/// The contents of the first `k` text nodes of `s`, concatenated.
pub open spec fn joined_text(s: Seq<MarkupNode>, k: int) -> Seq<char>
    decreases k,
{
    if k <= 0 || k > s.len() {
        Seq::empty()
    } else {
        joined_text(s, k - 1) + match s[k - 1] {
            MarkupNode::Text { text } => text@,
            _ => Seq::empty(),
        }
    }
}

proof fn lemma_render_all_text(s: Seq<MarkupNode>, k: int)
    requires
        all_text(s),
        0 <= k <= s.len(),
    ensures
        render_all(s, k) == joined_text(s, k),
    decreases k,
{
    if k > 0 {
        lemma_render_all_text(s, k - 1);
        assert(s[k - 1] is Text);
        match s[k - 1] {
            MarkupNode::Text { text } => {
                assert(render(s[k - 1]) == text@);
            },
            _ => {},
        }
    }
}

/// A tree whose nodes below the root are all text renders as that text,
/// unchanged: for a document root, and for an element root whose tag adds no
/// framing.
pub proof fn lemma_text_only_unchanged(children: Vec<MarkupNode>, name: String, attrs: Vec<Attribute>)
    requires
        all_text(children@),
    ensures
        render(MarkupNode::Document { children }) == joined_text(children@, children@.len() as int),
        ({
            let tag = lower_of(name@);
            tag != "a"@ && tag != "b"@ && tag != "strong"@ && tag != "p"@ && tag != "br"@
        }) ==> render(MarkupNode::Element { name, attrs, children }) == joined_text(
            children@,
            children@.len() as int,
        ),
{
    lemma_render_all_text(children@, children@.len() as int);
}

} // verus!
