//! The parsed-document model and the tag locator.
//!
//! A document is held as its nodes in document order (depth-first,
//! pre-order), each with the number of nodes in its subtree, itself included.
//! The subtree of the node at `i` is then the range `i .. i + subtree_len`.
use vstd::prelude::*;
use crate::errors::{XMLError, XMLErrorView};

verus! {

/// One node of a parsed document.
#[derive(Debug)]
pub struct XmlNode {
    /// Whether the node is an element (not the document root, text or a comment).
    pub is_element: bool,
    /// The element's local name, without namespace prefix; empty for other nodes.
    pub name: String,
    /// The element's first child text, or the text of a text or comment node.
    pub text: Option<String>,
    /// The attributes, as local names and values, in document order.
    pub attributes: Vec<(String, String)>,
    /// The number of nodes in this node's subtree, the node itself included.
    pub subtree_len: usize,
}

/// What an [`XmlNode`] holds.
pub struct XmlNodeView {
    pub is_element: bool,
    pub name: Seq<char>,
    pub text: Option<Seq<char>>,
    pub attributes: Seq<(Seq<char>, Seq<char>)>,
    pub subtree_len: nat,
}

/// The text of an optional string.
pub open spec fn opt_view(o: Option<String>) -> Option<Seq<char>> {
    match o {
        Some(s) => Some(s@),
        None => None,
    }
}

impl View for XmlNode {
    type V = XmlNodeView;

    open spec fn view(&self) -> XmlNodeView {
        XmlNodeView {
            is_element: self.is_element,
            name: self.name@,
            text: opt_view(self.text),
            attributes: self.attributes@.map_values(|a: (String, String)| (a.0@, a.1@)),
            subtree_len: self.subtree_len as nat,
        }
    }
}

/// The nodes of a document, as views.
pub open spec fn nodes_view(nodes: Seq<XmlNode>) -> Seq<XmlNodeView> {
    nodes.map_values(|n: XmlNode| n@)
}

/// The nodes, in document order, of the XML document that `text` holds;
/// `None` where `text` is not well-formed XML.
pub uninterp spec fn parsed_nodes(text: Seq<char>) -> Option<Seq<XmlNodeView>>;

/// Relies on roxmltree's `Document::parse`, and on `Node::descendants`,
/// `is_element`, `tag_name`, `text` and `attributes` to read what it parsed:
/// the nodes in document order.
#[verifier::external_body]
pub(crate) fn parse_document(text: &str) -> (r: Result<Vec<XmlNode>, roxmltree::Error>)
    ensures
        r is Ok <==> parsed_nodes(text@) is Some,
        r is Ok ==> nodes_view(r->Ok_0@) == parsed_nodes(text@)->0,
{
    let doc = roxmltree::Document::parse(text)?;
    Ok(doc.descendants().map(|n| XmlNode {
        is_element: n.is_element(),
        name: n.tag_name().name().to_string(),
        text: n.text().map(|t| t.to_string()),
        attributes: n.attributes().map(|a| (a.name().to_string(), a.value().to_string())).collect(),
        subtree_len: n.descendants().count(),
    }).collect())
}

/// Parses a document into its nodes.
pub fn parse_xml(text: &str) -> (r: Result<Vec<XmlNode>, XMLError>)
    ensures
        match r {
            Ok(nodes) => parsed_nodes(text@) == Some(nodes_view(nodes@)),
            Err(e) => parsed_nodes(text@) is None && e@ == XMLErrorView::ParseError,
        },
{
    match parse_document(text) {
        Ok(nodes) => Ok(nodes),
        Err(e) => Err(XMLError::ParseError(e)),
    }
}

/// Whether `n` is an element with local name `name`.
pub open spec fn is_tag(n: XmlNodeView, name: Seq<char>) -> bool {
    n.is_element && n.name == name
}

/// The first position in `lo .. hi` that holds an element named `name`.
pub open spec fn first_tag(nodes: Seq<XmlNodeView>, lo: int, hi: int, name: Seq<char>) -> Option<
    int,
>
    decreases hi - lo,
{
    if lo >= hi {
        None
    } else if is_tag(nodes[lo], name) {
        Some(lo)
    } else {
        first_tag(nodes, lo + 1, hi, name)
    }
}

/// The end of the subtree of the node at `i`, kept within the document.
pub open spec fn subtree_end(nodes: Seq<XmlNodeView>, i: int) -> int {
    if i + nodes[i].subtree_len <= nodes.len() {
        i + nodes[i].subtree_len
    } else {
        nodes.len() as int
    }
}

/// The text of the first element named `name` in `lo .. hi`: an error names
/// the tag where there is no such element, or where it has no text.
pub open spec fn tag_text(nodes: Seq<XmlNodeView>, lo: int, hi: int, name: Seq<char>) -> Result<
    Seq<char>,
    XMLErrorView,
> {
    match first_tag(nodes, lo, hi, name) {
        Some(j) => match nodes[j].text {
            Some(t) => Ok(t),
            None => Err(XMLErrorView::EmptyElement(name)),
        },
        None => Err(XMLErrorView::ElementNotFound(name)),
    }
}

/// The text of the first element named `name` in `lo .. hi`, where there is
/// one and it has text.
pub open spec fn optional_tag_text(nodes: Seq<XmlNodeView>, lo: int, hi: int, name: Seq<char>) -> Option<
    Seq<char>,
> {
    match first_tag(nodes, lo, hi, name) {
        Some(j) => nodes[j].text,
        None => None,
    }
}

pub(crate) proof fn lemma_first_tag_in_range(nodes: Seq<XmlNodeView>, lo: int, hi: int, name: Seq<char>)
    ensures
        first_tag(nodes, lo, hi, name) matches Some(j) ==> lo <= j < hi && is_tag(nodes[j], name),
    decreases hi - lo,
{
    if lo < hi && !is_tag(nodes[lo], name) {
        lemma_first_tag_in_range(nodes, lo + 1, hi, name);
    }
}

/// Finds the first element named `name` among the nodes at `lo .. hi`, in document order.
pub fn find_tag(nodes: &Vec<XmlNode>, lo: usize, hi: usize, name: &str) -> (r: Option<usize>)
    requires
        lo <= hi <= nodes@.len(),
    ensures
        match r {
            Some(j) => first_tag(nodes_view(nodes@), lo as int, hi as int, name@) == Some(j as int),
            None => first_tag(nodes_view(nodes@), lo as int, hi as int, name@) is None,
        },
{
    let ghost v = nodes_view(nodes@);
    let wanted = name.to_owned();
    let mut i: usize = lo;
    while i < hi
        invariant
            lo <= i <= hi <= nodes@.len(),
            v == nodes_view(nodes@),
            wanted@ == name@,
            first_tag(v, lo as int, hi as int, name@) == first_tag(v, i as int, hi as int, name@),
        decreases hi - i,
    {
        let node = &nodes[i];
        assert(v[i as int] == node@);
        if node.is_element && node.name == wanted {
            return Some(i);
        }
        i += 1;
    }
    None
}

/// The end of the subtree of the node at `i`, kept within the document.
pub fn subtree_end_of(nodes: &Vec<XmlNode>, i: usize) -> (r: usize)
    requires
        i < nodes@.len(),
    ensures
        r as int == subtree_end(nodes_view(nodes@), i as int),
{
    let ghost v = nodes_view(nodes@);
    assert(v[i as int] == nodes@[i as int]@);
    let len = nodes[i].subtree_len;
    if len <= nodes.len() - i {
        i + len
    } else {
        nodes.len()
    }
}

/// Finds the first element named `tag_name` in the whole document.
pub fn get_tag_by_name(nodes: &Vec<XmlNode>, tag_name: &str) -> (r: Result<usize, XMLError>)
    ensures
        match r {
            Ok(j) => first_tag(nodes_view(nodes@), 0, nodes@.len() as int, tag_name@) == Some(
                j as int,
            ),
            Err(e) => first_tag(nodes_view(nodes@), 0, nodes@.len() as int, tag_name@) is None
                && e@ == XMLErrorView::ElementNotFound(tag_name@),
        },
{
    match find_tag(nodes, 0, nodes.len(), tag_name) {
        Some(j) => Ok(j),
        None => Err(XMLError::ElementNotFound(tag_name.to_owned())),
    }
}

/// Finds the first element named `tag_name` in the subtree of the node at
/// `node`, the node itself included.
pub fn get_tag_by_name_node(nodes: &Vec<XmlNode>, node: usize, tag_name: &str) -> (r: Result<
    usize,
    XMLError,
>)
    requires
        node < nodes@.len(),
    ensures
        match r {
            Ok(j) => first_tag(
                nodes_view(nodes@),
                node as int,
                subtree_end(nodes_view(nodes@), node as int),
                tag_name@,
            ) == Some(j as int),
            Err(e) => first_tag(
                nodes_view(nodes@),
                node as int,
                subtree_end(nodes_view(nodes@), node as int),
                tag_name@,
            ) is None && e@ == XMLErrorView::ElementNotFound(tag_name@),
        },
{
    let end = subtree_end_of(nodes, node);
    match find_tag(nodes, node, end, tag_name) {
        Some(j) => Ok(j),
        None => Err(XMLError::ElementNotFound(tag_name.to_owned())),
    }
}

/// The text of the node at `node`; an element without text is an error that
/// names it, distinct from the error of an absent element.
pub fn get_text(nodes: &Vec<XmlNode>, node: usize) -> (r: Result<String, XMLError>)
    requires
        node < nodes@.len(),
    ensures
        match nodes_view(nodes@)[node as int].text {
            Some(t) => r matches Ok(s) && s@ == t,
            None => r matches Err(e) && e@ == XMLErrorView::EmptyElement(
                nodes_view(nodes@)[node as int].name,
            ),
        },
{
    let n = &nodes[node];
    assert(nodes_view(nodes@)[node as int] == n@);
    match &n.text {
        Some(t) => Ok(t.clone()),
        None => Err(XMLError::EmptyElement(n.name.clone())),
    }
}

/// The text of the first element named `tag` in `lo .. hi`.
pub fn tag_text_in(nodes: &Vec<XmlNode>, lo: usize, hi: usize, tag: &str) -> (r: Result<
    String,
    XMLError,
>)
    requires
        lo <= hi <= nodes@.len(),
    ensures
        match tag_text(nodes_view(nodes@), lo as int, hi as int, tag@) {
            Ok(t) => r matches Ok(s) && s@ == t,
            Err(ev) => r matches Err(e) && e@ == ev,
        },
{
    proof {
        lemma_first_tag_in_range(nodes_view(nodes@), lo as int, hi as int, tag@);
    }
    match find_tag(nodes, lo, hi, tag) {
        Some(j) => get_text(nodes, j),
        None => Err(XMLError::ElementNotFound(tag.to_owned())),
    }
}

/// The text of the first element named `tag` in `lo .. hi`, if there is one with text.
pub fn optional_tag_text_in(nodes: &Vec<XmlNode>, lo: usize, hi: usize, tag: &str) -> (r: Option<
    String,
>)
    requires
        lo <= hi <= nodes@.len(),
    ensures
        opt_view(r) == optional_tag_text(nodes_view(nodes@), lo as int, hi as int, tag@),
{
    proof {
        lemma_first_tag_in_range(nodes_view(nodes@), lo as int, hi as int, tag@);
    }
    match find_tag(nodes, lo, hi, tag) {
        Some(j) => {
            assert(nodes_view(nodes@)[j as int] == nodes@[j as int]@);
            match &nodes[j].text {
                Some(t) => Some(t.clone()),
                None => None,
            }
        },
        None => None,
    }
}

} // verus!
