use vstd::prelude::*;

use crate::err::DecodeError;

verus! {

// An owned element tree for the effect dialect. The borrowed document the
// markup parser produces is walked once, behind small trusted accessors,
// into this plain value; everything that reads the dialect afterwards is
// verified against the tree alone.

/// One attribute: its name and its raw text value.
#[derive(Debug, Clone, PartialEq, Eq)]
pub struct XmlAttr {
    pub name: String,
    pub value: String,
}

pub struct XmlAttrV {
    pub name: Seq<char>,
    pub value: Seq<char>,
}

impl View for XmlAttr {
    type V = XmlAttrV;

    open spec fn view(&self) -> XmlAttrV {
        XmlAttrV { name: self.name@, value: self.value@ }
    }
}

/// One element: tag name, attributes in document order, and element
/// children in document order. Text and other node kinds are not part of
/// the dialect and are not kept.
#[derive(Debug, PartialEq, Eq)]
pub struct XmlNode {
    pub tag: String,
    pub attrs: Vec<XmlAttr>,
    pub children: Vec<XmlNode>,
}

pub struct XmlNodeV {
    pub tag: Seq<char>,
    pub attrs: Seq<XmlAttrV>,
    pub children: Seq<XmlNodeV>,
}

/// The abstract value of one element; with the two sequence walkers this
/// is the one recursive view cluster of the tree, each step descending by
/// a single field, vector view, or element.
pub open spec fn sp_view_xml_node(n: XmlNode) -> XmlNodeV
    decreases n,
{
    XmlNodeV {
        tag: n.tag@,
        attrs: n.attrs@.map_values(|a: XmlAttr| a@),
        children: sp_view_xml_nodes_vec(n.children),
    }
}

pub open spec fn sp_view_xml_nodes_seq(s: Seq<XmlNode>) -> Seq<XmlNodeV>
    decreases s,
{
    if s.len() == 0 {
        Seq::empty()
    } else {
        sp_view_xml_nodes_seq(s.drop_last()).push(sp_view_xml_node(s.last()))
    }
}

pub open spec fn sp_view_xml_nodes_vec(v: Vec<XmlNode>) -> Seq<XmlNodeV>
    decreases v,
{
    sp_view_xml_nodes_seq(v@)
}

impl View for XmlNode {
    type V = XmlNodeV;

    open spec fn view(&self) -> XmlNodeV {
        sp_view_xml_node(*self)
    }
}

/// Element by element, the sequence view agrees with mapping each node to
/// its view.
pub proof fn lemma_view_xml_nodes_seq(s: Seq<XmlNode>)
    ensures
        sp_view_xml_nodes_seq(s) =~= s.map_values(|n: XmlNode| n@),
    decreases s.len(),
{
    if s.len() > 0 {
        lemma_view_xml_nodes_seq(s.drop_last());
    }
}

#[verifier::external_type_specification]
#[verifier::external_body]
pub struct ExXmlDocument<'input>(roxmltree::Document<'input>);

#[verifier::external_type_specification]
#[verifier::external_body]
pub struct ExXmlNode<'a, 'input: 'a>(roxmltree::Node<'a, 'input>);

/// Whether the markup parser accepts the text as a well-formed document:
/// a function of the characters alone.
pub uninterp spec fn sp_xml_wellformed(text: Seq<char>) -> bool;

/// Relies on `roxmltree::Document::parse`: it succeeds exactly on
/// well-formed markup, and a malformed entity reference is told apart
/// from every other parse failure, because one repair pass is allowed on
/// it.
#[verifier::external_body]
fn xml_document_parse<'i>(text: &'i str) -> (r: Result<roxmltree::Document<'i>, DecodeError>)
    ensures
        r is Ok <==> sp_xml_wellformed(text@),
        r matches Err(e) ==> (e == DecodeError::MalformedEntityReference || e
            == DecodeError::MalformedXml),
{
    match roxmltree::Document::parse(text) {
        Ok(d) => Ok(d),
        Err(roxmltree::Error::MalformedEntityReference(_)) => Err(
            DecodeError::MalformedEntityReference,
        ),
        Err(_) => Err(DecodeError::MalformedXml),
    }
}

/// Relies on `roxmltree::Document::root_element`.
#[verifier::external_body]
fn xml_root<'a, 'i>(doc: &'a roxmltree::Document<'i>) -> roxmltree::Node<'a, 'i> {
    doc.root_element()
}

/// Relies on `roxmltree::Node::tag_name`: the element's local name.
#[verifier::external_body]
fn xml_tag(n: &roxmltree::Node) -> String {
    n.tag_name().name().to_owned()
}

/// Relies on `roxmltree::Node::attributes`: the attribute at the given
/// position, if any.
#[verifier::external_body]
fn xml_attr_at(n: &roxmltree::Node, i: usize) -> Option<XmlAttr> {
    n.attributes().nth(i).map(
        |a| XmlAttr { name: a.name().to_owned(), value: a.value().to_owned() },
    )
}

/// Relies on `roxmltree::Node::first_element_child`.
#[verifier::external_body]
fn xml_first_element_child<'a, 'i>(n: &roxmltree::Node<'a, 'i>) -> Option<roxmltree::Node<'a, 'i>> {
    n.first_element_child()
}

/// Relies on `roxmltree::Node::next_sibling_element`.
#[verifier::external_body]
fn xml_next_sibling_element<'a, 'i>(n: &roxmltree::Node<'a, 'i>) -> Option<
    roxmltree::Node<'a, 'i>,
> {
    n.next_sibling_element()
}

/// Copies one borrowed element into an owned node, recursing into element
/// children. The borrowed nodes are opaque, so nothing can be stated of
/// the value; the dialect readers that consume the tree carry the exact
/// contracts. `None` means a depth or width beyond the given budgets.
fn node_tree(n: roxmltree::Node, depth: u64, budget: u32) -> (r: Option<XmlNode>)
    decreases depth,
{
    if depth == 0 {
        return None;
    }
    let tag = xml_tag(&n);
    let mut attrs: Vec<XmlAttr> = Vec::new();
    let mut i: u32 = 0;
    loop
        invariant
            i <= budget,
        decreases budget - i,
    {
        if i >= budget {
            return None;
        }
        match xml_attr_at(&n, i as usize) {
            Some(a) => {
                attrs.push(a);
            },
            None => {
                break ;
            },
        }
        i = i + 1;
    }
    let mut children: Vec<XmlNode> = Vec::new();
    let mut cur = xml_first_element_child(&n);
    let mut k: u32 = 0;
    loop
        invariant
            k <= budget,
            depth >= 1,
        decreases budget - k,
    {
        match cur {
            Some(c) => {
                if k >= budget {
                    return None;
                }
                match node_tree(c, depth - 1, budget) {
                    Some(child) => {
                        children.push(child);
                    },
                    None => {
                        return None;
                    },
                }
                cur = xml_next_sibling_element(&c);
            },
            None => {
                break ;
            },
        }
        k = k + 1;
    }
    Some(XmlNode { tag, attrs, children })
}

/// Parse markup text into the owned root element. A malformed entity
/// reference is reported as its own error so that the caller may repair
/// and retry once; any other failure of the markup itself, and a document
/// beyond the reader's generous budgets, are fatal.
pub fn parse_xml_tree(text: &str) -> (r: Result<XmlNode, DecodeError>)
    ensures
        r is Ok ==> sp_xml_wellformed(text@),
        r matches Err(e) ==> (e == DecodeError::MalformedEntityReference || e
            == DecodeError::MalformedXml || e == DecodeError::XmlTooLarge),
{
    let doc = match xml_document_parse(text) {
        Ok(d) => d,
        Err(e) => {
            return Err(e);
        },
    };
    let root = xml_root(&doc);
    match node_tree(root, 64, 0xffff_ffff) {
        Some(n) => Ok(n),
        None => Err(DecodeError::XmlTooLarge),
    }
}

} // verus!
