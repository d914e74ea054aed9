use wikidump::markup::{append_items, append_nodes, get_text_from_nodes, MarkupNode};

fn text(value: &str) -> MarkupNode {
    MarkupNode::Text(value.to_string())
}

fn items() -> Vec<Vec<MarkupNode>> {
    vec![vec![text("one")], vec![], vec![text("two"), text("three")]]
}

#[test]
fn flattening_nothing_gives_the_empty_text() {
    assert_eq!(get_text_from_nodes(&vec![]), "");
}

#[test]
fn text_nodes_flatten_to_their_concatenation() {
    let nodes = vec![text("Art "), text("and"), text(""), text(" crafts")];
    assert_eq!(get_text_from_nodes(&nodes), "Art and crafts");
}

#[test]
fn paragraph_break_becomes_one_newline() {
    let nodes = vec![text("one"), MarkupNode::ParagraphBreak, text("two")];
    assert_eq!(get_text_from_nodes(&nodes), "one\ntwo");
}

#[test]
fn character_entity_becomes_its_character() {
    let nodes = vec![text("a"), MarkupNode::CharacterEntity('\u{e9}'), text("b")];
    assert_eq!(get_text_from_nodes(&nodes), "a\u{e9}b");
}

#[test]
fn links_keep_their_label_only() {
    let nodes = vec![
        MarkupNode::Link(vec![text("shown")]),
        text(" "),
        MarkupNode::ExternalLink(vec![text("label")]),
        MarkupNode::Link(vec![]),
    ];
    assert_eq!(get_text_from_nodes(&nodes), "shown label");
}

#[test]
fn heading_stands_on_a_line_of_its_own() {
    let nodes = vec![text("before"), MarkupNode::Heading(vec![text(" Header ")]), text("after")];
    assert_eq!(get_text_from_nodes(&nodes), "before\n Header \nafter");
}

#[test]
fn list_items_are_joined_without_separator() {
    assert_eq!(get_text_from_nodes(&vec![MarkupNode::OrderedList(items())]), "onetwothree");
    assert_eq!(get_text_from_nodes(&vec![MarkupNode::UnorderedList(items())]), "onetwothree");
    assert_eq!(get_text_from_nodes(&vec![MarkupNode::DefinitionList(items())]), "onetwothree");
}

#[test]
fn preformatted_block_keeps_its_content() {
    let nodes = vec![MarkupNode::Preformatted(vec![text(" code"), MarkupNode::ParagraphBreak])];
    assert_eq!(get_text_from_nodes(&nodes), " code\n");
}

#[test]
fn images_and_unrendered_markup_give_nothing() {
    let nodes = vec![MarkupNode::Image, text("x"), MarkupNode::Unrendered, MarkupNode::Image];
    assert_eq!(get_text_from_nodes(&nodes), "x");
}

#[test]
fn nested_nodes_are_flattened_in_order() {
    let nodes = vec![
        MarkupNode::Heading(vec![MarkupNode::Link(vec![text("A"), MarkupNode::Image, text("B")])]),
        MarkupNode::UnorderedList(vec![
            vec![MarkupNode::Heading(vec![text("h")])],
            vec![MarkupNode::OrderedList(vec![vec![text("deep")]])],
        ]),
    ];
    assert_eq!(get_text_from_nodes(&nodes), "\nAB\n\nh\ndeep");
}

#[test]
fn appending_keeps_what_was_there() {
    let mut out = String::from("start:");
    append_nodes(&mut out, &vec![text("a"), MarkupNode::ParagraphBreak]);
    assert_eq!(out, "start:a\n");
    append_items(&mut out, &vec![vec![text("b")], vec![text("c")]]);
    assert_eq!(out, "start:a\nbc");
}
