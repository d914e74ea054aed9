//! The markup node tree and its reduction to plain text.

use vstd::prelude::*;
use vstd::string::StringExecFns;

verus! {

/// One node of parsed wiki markup, reduced to what plain-text extraction reads.
#[derive(Debug)]
pub enum MarkupNode {
    /// Literal text.
    Text(String),
    /// A blank line between two paragraphs.
    ParagraphBreak,
    /// A character entity, already decoded.
    CharacterEntity(char),
    /// An internal link; the nodes are its display text.
    Link(Vec<MarkupNode>),
    /// An external link; the nodes are its label.
    ExternalLink(Vec<MarkupNode>),
    /// A heading with its content.
    Heading(Vec<MarkupNode>),
    /// An image, caption included.
    Image,
    /// An ordered list; one node sequence per item.
    OrderedList(Vec<Vec<MarkupNode>>),
    /// An unordered list; one node sequence per item.
    UnorderedList(Vec<Vec<MarkupNode>>),
    /// A definition list; one node sequence per item.
    DefinitionList(Vec<Vec<MarkupNode>>),
    /// A preformatted block with its content.
    Preformatted(Vec<MarkupNode>),
    /// Markup without a plain-text rendering: templates and their parameters,
    /// bold and italic toggles, dividers, magic words, redirects, comments,
    /// tags, categories and tables.
    Unrendered,
}

/// The mathematical form of a node tree.
pub ghost enum NodeView {
    Text(Seq<char>),
    ParagraphBreak,
    CharacterEntity(char),
    Link(Seq<NodeView>),
    ExternalLink(Seq<NodeView>),
    Heading(Seq<NodeView>),
    Image,
    OrderedList(Seq<Seq<NodeView>>),
    UnorderedList(Seq<Seq<NodeView>>),
    DefinitionList(Seq<Seq<NodeView>>),
    Preformatted(Seq<NodeView>),
    Unrendered,
}

/// The mathematical form of one node.
pub open spec fn node_view(node: MarkupNode) -> NodeView
    decreases node,
{
    match node {
        MarkupNode::Text(value) => NodeView::Text(value@),
        MarkupNode::ParagraphBreak => NodeView::ParagraphBreak,
        MarkupNode::CharacterEntity(character) => NodeView::CharacterEntity(character),
        MarkupNode::Link(text) => NodeView::Link(node_views(text@)),
        MarkupNode::ExternalLink(nodes) => NodeView::ExternalLink(node_views(nodes@)),
        MarkupNode::Heading(nodes) => NodeView::Heading(node_views(nodes@)),
        MarkupNode::Image => NodeView::Image,
        MarkupNode::OrderedList(items) => NodeView::OrderedList(item_views(items@)),
        MarkupNode::UnorderedList(items) => NodeView::UnorderedList(item_views(items@)),
        MarkupNode::DefinitionList(items) => NodeView::DefinitionList(item_views(items@)),
        MarkupNode::Preformatted(nodes) => NodeView::Preformatted(node_views(nodes@)),
        MarkupNode::Unrendered => NodeView::Unrendered,
    }
}

/// The mathematical form of a node sequence.
pub open spec fn node_views(nodes: Seq<MarkupNode>) -> Seq<NodeView>
    decreases nodes,
{
    if nodes.len() == 0 {
        Seq::empty()
    } else {
        node_views(nodes.drop_last()).push(node_view(nodes.last()))
    }
}

/// The mathematical form of the items of a list.
pub open spec fn item_views(items: Seq<Vec<MarkupNode>>) -> Seq<Seq<NodeView>>
    decreases items,
{
    if items.len() == 0 {
        Seq::empty()
    } else {
        item_views(items.drop_last()).push(node_views(items.last()@))
    }
}

impl View for MarkupNode {
    type V = NodeView;

    open spec fn view(&self) -> NodeView {
        node_view(*self)
    }
}

/// The plain text that a single node contributes.
pub open spec fn node_text(node: NodeView) -> Seq<char>
    decreases node,
{
    match node {
        NodeView::Text(value) => value,
        NodeView::ParagraphBreak => seq!['\n'],
        NodeView::CharacterEntity(character) => seq![character],
        NodeView::Link(text) => flatten(text),
        NodeView::ExternalLink(nodes) => flatten(nodes),
        NodeView::Heading(nodes) => seq!['\n'] + flatten(nodes) + seq!['\n'],
        NodeView::Image => Seq::empty(),
        NodeView::OrderedList(items) => flatten_items(items),
        NodeView::UnorderedList(items) => flatten_items(items),
        NodeView::DefinitionList(items) => flatten_items(items),
        NodeView::Preformatted(nodes) => flatten(nodes),
        NodeView::Unrendered => Seq::empty(),
    }
}

/// The plain text of a node sequence: the contributions of its nodes, in order.
pub open spec fn flatten(nodes: Seq<NodeView>) -> Seq<char>
    decreases nodes,
{
    if nodes.len() == 0 {
        Seq::empty()
    } else {
        flatten(nodes.drop_last()) + node_text(nodes.last())
    }
}

/// The plain text of a list: the texts of its items, in order, with nothing
/// between them.
pub open spec fn flatten_items(items: Seq<Seq<NodeView>>) -> Seq<char>
    decreases items,
{
    if items.len() == 0 {
        Seq::empty()
    } else {
        flatten_items(items.drop_last()) + flatten(items.last())
    }
}

/// True when every node of the sequence is a text node.
pub open spec fn only_text(nodes: Seq<NodeView>) -> bool {
    forall|i: int| 0 <= i < nodes.len() ==> (#[trigger] nodes[i]) is Text
}

/// The literal values of a sequence of text nodes.
pub open spec fn text_values(nodes: Seq<NodeView>) -> Seq<Seq<char>> {
    Seq::new(nodes.len(), |i: int| nodes[i]->Text_0)
}

/// Flattening a sequence made of text nodes alone gives the concatenation of
/// their values.
pub proof fn lemma_flatten_of_text_nodes(nodes: Seq<NodeView>)
    requires
        only_text(nodes),
    ensures
        flatten(nodes) == text_values(nodes).flatten(),
    decreases nodes.len(),
{
    let values = text_values(nodes);
    values.lemma_flatten_and_flatten_alt_are_equivalent();
    if nodes.len() > 0 {
        let front = nodes.drop_last();
        lemma_flatten_of_text_nodes(front);
        text_values(front).lemma_flatten_and_flatten_alt_are_equivalent();
        assert(values.drop_last() =~= text_values(front));
        assert(values.last() == node_text(nodes.last()));
    }
}

/// The form of a sequence with one more node at its end.
pub proof fn lemma_node_views_push(nodes: Seq<MarkupNode>, node: MarkupNode)
    ensures
        node_views(nodes.push(node)) == node_views(nodes).push(node@),
        flatten(node_views(nodes.push(node))) == flatten(node_views(nodes)) + node_text(node@),
{
    assert(nodes.push(node).drop_last() =~= nodes);
    assert(node_views(nodes).push(node@).drop_last() =~= node_views(nodes));
}

/// The form of a list with one more item at its end.
pub proof fn lemma_item_views_push(items: Seq<Vec<MarkupNode>>, item: Vec<MarkupNode>)
    ensures
        item_views(items.push(item)) == item_views(items).push(node_views(item@)),
        flatten_items(item_views(items.push(item))) == flatten_items(item_views(items)) + flatten(
            node_views(item@),
        ),
{
    assert(items.push(item).drop_last() =~= items);
    assert(item_views(items).push(node_views(item@)).drop_last() =~= item_views(items));
}

/// Appends the plain text of `nodes` to `out`.
pub fn append_nodes(out: &mut String, nodes: &Vec<MarkupNode>)
    ensures
        final(out)@ == old(out)@ + flatten(node_views(nodes@)),
    decreases nodes,
{
    let mut i: usize = 0;
    while i < nodes.len()
        invariant
            i <= nodes.len(),
            out@ == old(out)@ + flatten(node_views(nodes@.take(i as int))),
        decreases nodes.len() - i,
    {
        proof {
            assert(nodes@.take(i + 1) =~= nodes@.take(i as int).push(nodes@[i as int]));
            lemma_node_views_push(nodes@.take(i as int), nodes@[i as int]);
        }
        match &nodes[i] {
            MarkupNode::Text(value) => {
                out.append(value.as_str());
            },
            MarkupNode::ParagraphBreak => {
                out.push('\n');
            },
            MarkupNode::CharacterEntity(character) => {
                out.push(*character);
            },
            MarkupNode::Link(text) => {
                append_nodes(out, text);
            },
            MarkupNode::ExternalLink(inner) => {
                append_nodes(out, inner);
            },
            MarkupNode::Heading(inner) => {
                out.push('\n');
                append_nodes(out, inner);
                out.push('\n');
            },
            MarkupNode::Image => {},
            MarkupNode::OrderedList(items) => {
                append_items(out, items);
            },
            MarkupNode::UnorderedList(items) => {
                append_items(out, items);
            },
            MarkupNode::DefinitionList(items) => {
                append_items(out, items);
            },
            MarkupNode::Preformatted(inner) => {
                append_nodes(out, inner);
            },
            MarkupNode::Unrendered => {},
        }
        i += 1;
    }
    assert(nodes@.take(i as int) =~= nodes@);
}

/// Appends the plain text of every item of a list to `out`.
pub fn append_items(out: &mut String, items: &Vec<Vec<MarkupNode>>)
    ensures
        final(out)@ == old(out)@ + flatten_items(item_views(items@)),
    decreases items,
{
    let mut i: usize = 0;
    while i < items.len()
        invariant
            i <= items.len(),
            out@ == old(out)@ + flatten_items(item_views(items@.take(i as int))),
        decreases items.len() - i,
    {
        proof {
            assert(items@.take(i + 1) =~= items@.take(i as int).push(items@[i as int]));
            lemma_item_views_push(items@.take(i as int), items@[i as int]);
        }
        append_nodes(out, &items[i]);
        i += 1;
    }
    assert(items@.take(i as int) =~= items@);
}

/// The plain text of a node sequence.
pub fn get_text_from_nodes(nodes: &Vec<MarkupNode>) -> (text: String)
    ensures
        text@ == flatten(node_views(nodes@)),
{
    let mut text = String::new();
    append_nodes(&mut text, nodes);
    text
}

} // verus!
