//! The wiki markup parser, and the passage from its node tree to
//! [`MarkupNode`].

use crate::config::{default_profile, MarkupProfile, ProfileView};
use crate::markup::{
    item_views, lemma_item_views_push, lemma_node_views_push, node_views, MarkupNode, NodeView,
};
use parse_wiki_text::{Configuration, ConfigurationSource, Node};
use vstd::prelude::*;
use vstd::string::StringExecFns;

verus! {

/// `parse_wiki_text::Configuration`, a compiled markup dialect.
#[verifier::external_type_specification]
#[verifier::external_body]
pub struct ExConfiguration(Configuration);

/// `parse_wiki_text::Node`, one node of the parser's output.
#[verifier::external_type_specification]
#[verifier::external_body]
pub struct ExNode<'a>(Node<'a>);

/// The profile that a configuration was compiled from.
pub uninterp spec fn dialect(configuration: Configuration) -> ProfileView;

/// The node sequence that the markup parser gives for `text` when it is
/// configured with `profile`.
pub uninterp spec fn markup_nodes(profile: ProfileView, text: Seq<char>) -> Seq<NodeView>;

/// What a parser node holds, as far as plain-text extraction reads it: its
/// kind, the value of a text node, the character of a character entity, the
/// display text of a link, the content of an external link, a heading or a
/// preformatted block, and the content of each item of a list. Every other
/// kind is `Unrendered`.
pub uninterp spec fn node_model(node: Node) -> NodeView;

/// What a sequence of parser nodes holds.
pub open spec fn node_models(nodes: Seq<Node>) -> Seq<NodeView> {
    Seq::new(nodes.len(), |i: int| node_model(nodes[i]))
}

/// What the items of a list hold.
pub open spec fn item_models(items: Seq<&Vec<Node>>) -> Seq<Seq<NodeView>> {
    Seq::new(items.len(), |i: int| node_models(items[i]@))
}

/// The content nodes of a link, a heading or a preformatted block; no nodes
/// for any other kind.
pub open spec fn content_of(node: NodeView) -> Seq<NodeView> {
    match node {
        NodeView::Link(text) => text,
        NodeView::ExternalLink(nodes) => nodes,
        NodeView::Heading(nodes) => nodes,
        NodeView::Preformatted(nodes) => nodes,
        _ => Seq::empty(),
    }
}

/// The items of a list; no items for any other kind.
pub open spec fn items_of(node: NodeView) -> Seq<Seq<NodeView>> {
    match node {
        NodeView::OrderedList(items) => items,
        NodeView::UnorderedList(items) => items,
        NodeView::DefinitionList(items) => items,
        _ => Seq::empty(),
    }
}

/// The kind of a parser node, with what a node without content holds.
pub enum NodeHead<'a> {
    Text(&'a str),
    ParagraphBreak,
    CharacterEntity(char),
    Link,
    ExternalLink,
    Heading,
    Image,
    OrderedList,
    UnorderedList,
    DefinitionList,
    Preformatted,
    Unrendered,
}

impl<'a> NodeHead<'a> {
    /// True when this is the head of `node`.
    pub open spec fn describes(self, node: NodeView) -> bool {
        match (self, node) {
            (NodeHead::Text(value), NodeView::Text(text)) => value@ == text,
            (NodeHead::ParagraphBreak, NodeView::ParagraphBreak) => true,
            (NodeHead::CharacterEntity(character), NodeView::CharacterEntity(c)) => character == c,
            (NodeHead::Link, NodeView::Link(_)) => true,
            (NodeHead::ExternalLink, NodeView::ExternalLink(_)) => true,
            (NodeHead::Heading, NodeView::Heading(_)) => true,
            (NodeHead::Image, NodeView::Image) => true,
            (NodeHead::OrderedList, NodeView::OrderedList(_)) => true,
            (NodeHead::UnorderedList, NodeView::UnorderedList(_)) => true,
            (NodeHead::DefinitionList, NodeView::DefinitionList(_)) => true,
            (NodeHead::Preformatted, NodeView::Preformatted(_)) => true,
            (NodeHead::Unrendered, NodeView::Unrendered) => true,
            _ => false,
        }
    }
}

/// Wraps `Configuration::default`. Claims that the configuration is compiled
/// from the default profile.
#[verifier::external_body]
pub(crate) fn default_configuration() -> (configuration: Configuration)
    ensures
        dialect(configuration) == default_profile(),
{
    Configuration::default()
}

/// Wraps `Configuration::new`, handing it the lists of the profile. Claims
/// that the configuration is compiled from that profile.
#[verifier::external_body]
pub(crate) fn build_configuration(profile: &MarkupProfile) -> (configuration: Configuration)
    ensures
        dialect(configuration) == profile@,
{
    Configuration::new(
        &ConfigurationSource {
            category_namespaces: &profile.category_namespaces,
            extension_tags: &profile.extension_tags,
            file_namespaces: &profile.file_namespaces,
            link_trail: profile.link_trail,
            magic_words: &profile.magic_words,
            protocols: &profile.protocols,
            redirect_magic_words: &profile.redirect_magic_words,
        },
    )
}

/// Wraps `Configuration::parse` and keeps the nodes of its output. Claims
/// that they hold what `markup_nodes` names for the configuration's profile
/// and this text.
#[verifier::external_body]
pub(crate) fn parse_nodes<'a>(configuration: &Configuration, text: &'a str) -> (nodes: Vec<
    Node<'a>,
>)
    ensures
        node_models(nodes@) == markup_nodes(dialect(*configuration), text@),
{
    configuration.parse(text).nodes
}

/// Tells the variants of `Node` apart, one arm for each kind that
/// plain-text extraction reads, and hands out the value of a text node and
/// the character of a character entity.
#[verifier::external_body]
pub(crate) fn node_head<'a>(node: &Node<'a>) -> (head: NodeHead<'a>)
    ensures
        head.describes(node_model(*node)),
{
    match node {
        Node::Text { value, .. } => NodeHead::Text(value),
        Node::ParagraphBreak { .. } => NodeHead::ParagraphBreak,
        Node::CharacterEntity { character, .. } => NodeHead::CharacterEntity(*character),
        Node::Link { .. } => NodeHead::Link,
        Node::ExternalLink { .. } => NodeHead::ExternalLink,
        Node::Heading { .. } => NodeHead::Heading,
        Node::Image { .. } => NodeHead::Image,
        Node::OrderedList { .. } => NodeHead::OrderedList,
        Node::UnorderedList { .. } => NodeHead::UnorderedList,
        Node::DefinitionList { .. } => NodeHead::DefinitionList,
        Node::Preformatted { .. } => NodeHead::Preformatted,
        _ => NodeHead::Unrendered,
    }
}

/// Hands out the display text of a `Node::Link` and the content nodes of a
/// `Node::ExternalLink`, `Node::Heading` or `Node::Preformatted`; no nodes
/// for any other variant.
#[verifier::external_body]
pub(crate) fn node_content<'a, 'b>(node: &'b Node<'a>) -> (content: &'b [Node<'a>])
    ensures
        node_models(content@) == content_of(node_model(*node)),
{
    match node {
        Node::Link { text, .. } => text,
        Node::ExternalLink { nodes, .. } => nodes,
        Node::Heading { nodes, .. } => nodes,
        Node::Preformatted { nodes, .. } => nodes,
        _ => &[],
    }
}

/// Hands out the nodes of each item of a `Node::OrderedList`,
/// `Node::UnorderedList` or `Node::DefinitionList`, in order; no items for
/// any other variant.
#[verifier::external_body]
pub(crate) fn node_items<'a, 'b>(node: &'b Node<'a>) -> (items: Vec<&'b Vec<Node<'a>>>)
    ensures
        item_models(items@) == items_of(node_model(*node)),
{
    match node {
        Node::OrderedList { items, .. } => items.iter().map(|item| &item.nodes).collect(),
        Node::UnorderedList { items, .. } => items.iter().map(|item| &item.nodes).collect(),
        Node::DefinitionList { items, .. } => items.iter().map(|item| &item.nodes).collect(),
        _ => Vec::new(),
    }
}

/// Converts one parser node.
pub fn import_node(node: &Node) -> (converted: MarkupNode)
    ensures
        converted@ == node_model(*node),
    decreases node_model(*node),
{
    match node_head(node) {
        NodeHead::Text(value) => MarkupNode::Text(String::from_str(value)),
        NodeHead::ParagraphBreak => MarkupNode::ParagraphBreak,
        NodeHead::CharacterEntity(character) => MarkupNode::CharacterEntity(character),
        NodeHead::Link => MarkupNode::Link(import_nodes(node_content(node))),
        NodeHead::ExternalLink => MarkupNode::ExternalLink(import_nodes(node_content(node))),
        NodeHead::Heading => MarkupNode::Heading(import_nodes(node_content(node))),
        NodeHead::Image => MarkupNode::Image,
        NodeHead::OrderedList => MarkupNode::OrderedList(import_items(&node_items(node))),
        NodeHead::UnorderedList => MarkupNode::UnorderedList(import_items(&node_items(node))),
        NodeHead::DefinitionList => MarkupNode::DefinitionList(import_items(&node_items(node))),
        NodeHead::Preformatted => MarkupNode::Preformatted(import_nodes(node_content(node))),
        NodeHead::Unrendered => MarkupNode::Unrendered,
    }
}

/// Converts a sequence of parser nodes, node by node.
pub fn import_nodes(nodes: &[Node]) -> (converted: Vec<MarkupNode>)
    ensures
        node_views(converted@) == node_models(nodes@),
    decreases node_models(nodes@),
{
    let mut converted: Vec<MarkupNode> = Vec::new();
    let mut i: usize = 0;
    while i < nodes.len()
        invariant
            i <= nodes.len(),
            node_views(converted@) == node_models(nodes@.take(i as int)),
        decreases nodes.len() - i,
    {
        assert(node_models(nodes@)[i as int] == node_model(nodes@[i as int]));
        let node = import_node(&nodes[i]);
        proof {
            lemma_node_views_push(converted@, node);
        }
        converted.push(node);
        i += 1;
    }
    converted
}

/// Converts the items of a list, item by item.
pub fn import_items(items: &Vec<&Vec<Node>>) -> (converted: Vec<Vec<MarkupNode>>)
    ensures
        item_views(converted@) == item_models(items@),
    decreases item_models(items@),
{
    let mut converted: Vec<Vec<MarkupNode>> = Vec::new();
    let mut i: usize = 0;
    while i < items.len()
        invariant
            i <= items.len(),
            item_views(converted@) == item_models(items@.take(i as int)),
        decreases items.len() - i,
    {
        assert(item_models(items@)[i as int] == node_models(items@[i as int]@));
        let item = import_nodes(items[i].as_slice());
        proof {
            lemma_item_views_push(converted@, item);
        }
        converted.push(item);
        i += 1;
    }
    converted
}

/// Parses wiki text into its node tree.
pub fn parse_markup(configuration: &Configuration, text: &str) -> (nodes: Vec<MarkupNode>)
    ensures
        node_views(nodes@) == markup_nodes(dialect(*configuration), text@),
{
    let parsed = parse_nodes(configuration, text);
    import_nodes(parsed.as_slice())
}

} // verus!
