use std::io::Write;
use wikidump::compression::is_compressed;
use wikidump::config::wikipedia::{english, simple_english};
use wikidump::config::MarkupProfile;
use wikidump::markup::MarkupNode;
use wikidump::parser::{render_revision, tidy_revision};
use wikidump::{PageRevision, ParseError, Parser, Site};

const TWO_NAMESPACES: &str = "<mediawiki><siteinfo><sitename>Wiki</sitename><base>http://w/</base>\
    </siteinfo><page><title>alpha</title><ns>0</ns><revision><text>'''A''' [[b|c]]\n</text>\
    </revision></page><page><title>beta</title><ns>42</ns><revision><text> talk </text>\
    </revision></page><page><title>gamma</title><ns>0</ns><revision><text>one</text></revision>\
    <revision><text>== two ==</text></revision></page></mediawiki>";

fn compressed(plain: &[u8]) -> Vec<u8> {
    let mut encoder = bzip2::write::BzEncoder::new(Vec::new(), bzip2::Compression::best());
    encoder.write_all(plain).unwrap();
    encoder.finish().unwrap()
}

fn same_site(a: &Site, b: &Site) -> bool {
    a.name == b.name
        && a.url == b.url
        && a.pages.len() == b.pages.len()
        && a.pages.iter().zip(b.pages.iter()).all(|(p, q)| {
            p.title == q.title
                && p.revisions.len() == q.revisions.len()
                && p.revisions
                    .iter()
                    .zip(q.revisions.iter())
                    .all(|(r, s)| r.text == s.text && r.raw == s.raw)
        })
}

#[test]
fn signature_is_recognised() {
    assert!(is_compressed(b"BZh91AY"));
    assert!(is_compressed(b"BZh"));
    assert!(!is_compressed(b"<me"));
    assert!(!is_compressed(b"BZH"));
    assert!(!is_compressed(b"bZh"));
    assert!(!is_compressed(b"BzhBZh"));
}

#[test]
fn filter_keeps_namespace_zero_in_order() {
    let site = Parser::new().parse_str(TWO_NAMESPACES).unwrap();
    let titles: Vec<&str> = site.pages.iter().map(|p| p.title.as_str()).collect();
    assert_eq!(titles, vec!["alpha", "gamma"]);
    let site = Parser::new().exclude_pages(false).parse_str(TWO_NAMESPACES).unwrap();
    let titles: Vec<&str> = site.pages.iter().map(|p| p.title.as_str()).collect();
    assert_eq!(titles, vec!["alpha", "beta", "gamma"]);
}

#[test]
fn page_counts_differ_by_the_pages_filtered_out() {
    let all = Parser::new().exclude_pages(false).parse_str(TWO_NAMESPACES).unwrap();
    let articles = Parser::new().exclude_pages(true).parse_str(TWO_NAMESPACES).unwrap();
    assert_eq!(all.pages.len() - articles.pages.len(), 1);
}

#[test]
fn processed_text_and_raw_text() {
    let site = Parser::new().parse_str(TWO_NAMESPACES).unwrap();
    assert_eq!(site.name, "Wiki");
    assert_eq!(site.url, "http://w/");
    assert_eq!(site.pages[0].revisions[0].text, "A c");
    assert_eq!(site.pages[0].revisions[0].raw, "'''A''' [[b|c]]\n");
    assert_eq!(site.pages[1].revisions.len(), 2);
    assert_eq!(site.pages[1].revisions[0].text, "one");
    assert_eq!(site.pages[1].revisions[1].text, "two");
    assert_eq!(site.pages[1].revisions[1].raw, "== two ==");
}

#[test]
fn raw_text_does_not_depend_on_newline_removal() {
    let kept = Parser::new().remove_newlines(false).parse_str(TWO_NAMESPACES).unwrap();
    let removed = Parser::new().remove_newlines(true).parse_str(TWO_NAMESPACES).unwrap();
    assert_eq!(kept.pages[0].revisions[0].raw, "'''A''' [[b|c]]\n");
    assert_eq!(removed.pages[0].revisions[0].raw, "'''A''' [[b|c]]\n");
}

#[test]
fn unprocessed_text_is_trimmed_and_raw_stays_empty() {
    let parser = Parser::new().process_text(false).exclude_pages(false);
    let site = parser.parse_str(TWO_NAMESPACES).unwrap();
    assert_eq!(site.pages[0].revisions[0].text, "'''A''' [[b|c]]");
    assert_eq!(site.pages[0].revisions[0].raw, "");
    assert_eq!(site.pages[1].revisions[0].text, "talk");
    assert_eq!(site.pages[2].revisions[1].text, "== two ==");
}

#[test]
fn newlines_of_headings_are_removed_on_request() {
    let dump = "<page><ns>0</ns><revision><text>a\n== h ==\nb\r\nc</text></revision></page>";
    let kept = Parser::new().parse_str(dump).unwrap();
    assert_eq!(kept.pages[0].revisions[0].text, "a\nh\nb\r\nc");
    let removed = Parser::new().remove_newlines(true).parse_str(dump).unwrap();
    assert_eq!(removed.pages[0].revisions[0].text, "ahbc");
    let plain = Parser::new().process_text(false).remove_newlines(true).parse_str(dump).unwrap();
    assert_eq!(plain.pages[0].revisions[0].text, "a== h ==bc");
}

#[test]
fn text_and_bytes_parse_alike() {
    let parser = Parser::new().exclude_pages(false);
    let from_text = parser.parse_str(TWO_NAMESPACES).unwrap();
    let from_bytes = parser.parse_bytes(TWO_NAMESPACES.as_bytes()).unwrap();
    assert!(same_site(&from_text, &from_bytes));
    assert_eq!(from_bytes.pages.len(), 3);
}

#[test]
fn compressed_and_plain_parse_alike() {
    let parser = Parser::new().exclude_pages(false).use_config(english());
    let packed = compressed(TWO_NAMESPACES.as_bytes());
    assert!(is_compressed(&packed));
    assert_ne!(packed, TWO_NAMESPACES.as_bytes());
    let from_packed = parser.parse_bytes(&packed).unwrap();
    let from_plain = parser.parse_bytes(TWO_NAMESPACES.as_bytes()).unwrap();
    assert!(same_site(&from_packed, &from_plain));
    assert_eq!(from_packed.pages[2].revisions[1].text, "two");
}

#[test]
fn broken_compressed_stream_is_reported() {
    let result = Parser::new().parse_bytes(b"BZh9 this is no bzip2 stream");
    assert_eq!(result.err(), Some(ParseError::Decompression));
    let mut packed = compressed(TWO_NAMESPACES.as_bytes());
    packed.truncate(packed.len() / 2);
    let result = Parser::new().parse_bytes(&packed);
    assert_eq!(result.err(), Some(ParseError::Decompression));
}

#[test]
fn malformed_dump_is_reported() {
    let result = Parser::new().parse_str("<mediawiki><!bad></mediawiki>");
    assert_eq!(result.err(), Some(ParseError::Malformed));
}

#[test]
fn profile_decides_what_a_category_is() {
    let dump = "<page><ns>0</ns><revision><text>[[Kategorie:Kunst]]Hallo</text></revision></page>";
    let german = MarkupProfile {
        category_namespaces: vec!["kategorie"],
        extension_tags: vec![],
        file_namespaces: vec!["datei"],
        link_trail: "abcdefghijklmnopqrstuvwxyz",
        magic_words: vec![],
        protocols: vec!["http://"],
        redirect_magic_words: vec!["WEITERLEITUNG"],
    };
    let site = Parser::new().use_config(german).parse_str(dump).unwrap();
    assert_eq!(site.pages[0].revisions[0].text, "Hallo");
    let site = Parser::new().use_config(english()).parse_str(dump).unwrap();
    assert_eq!(site.pages[0].revisions[0].text, "Kategorie:KunstHallo");
}

#[test]
fn english_profile_holds_its_lists() {
    let profile = english();
    assert_eq!(profile.category_namespaces, vec!["category"]);
    assert_eq!(profile.file_namespaces, vec!["file", "image"]);
    assert_eq!(profile.extension_tags.len(), 25);
    assert_eq!(profile.extension_tags[0], "categorytree");
    assert_eq!(profile.extension_tags[24], "timeline");
    assert_eq!(profile.link_trail, "ABCDEFGHIJKLMNOPQRSTUVWXYZabcdefghijklmnopqrstuvwxyz");
    assert_eq!(profile.magic_words.len(), 19);
    assert_eq!(profile.magic_words[18], "TOC");
    assert_eq!(profile.protocols.len(), 28);
    assert_eq!(profile.protocols[0], "//");
    assert_eq!(profile.protocols[27], "xmpp:");
    assert_eq!(profile.redirect_magic_words, vec!["REDIRECT"]);
}

#[test]
fn simple_english_is_english() {
    let a = english();
    let b = simple_english();
    assert_eq!(a.category_namespaces, b.category_namespaces);
    assert_eq!(a.extension_tags, b.extension_tags);
    assert_eq!(a.file_namespaces, b.file_namespaces);
    assert_eq!(a.link_trail, b.link_trail);
    assert_eq!(a.magic_words, b.magic_words);
    assert_eq!(a.protocols, b.protocols);
    assert_eq!(a.redirect_magic_words, b.redirect_magic_words);
}

#[test]
fn rendering_keeps_the_wiki_text_as_raw() {
    let mut revision = PageRevision { text: "''x'' \\t y".to_string(), raw: String::new() };
    let nodes = vec![
        MarkupNode::Unrendered,
        MarkupNode::Text("x".to_string()),
        MarkupNode::Unrendered,
        MarkupNode::Text(" \\t y\n".to_string()),
    ];
    render_revision(&mut revision, &nodes);
    assert_eq!(revision.raw, "''x'' \\t y");
    assert_eq!(revision.text, "x  y\n");
}

#[test]
fn tidying_strips_and_trims() {
    let mut revision = PageRevision { text: " a\nb \r\n".to_string(), raw: "r\n".to_string() };
    tidy_revision(&mut revision, false);
    assert_eq!(revision.text, "a\nb");
    assert_eq!(revision.raw, "r\n");
    let mut revision = PageRevision { text: " a\nb \r\n".to_string(), raw: "r\n".to_string() };
    tidy_revision(&mut revision, true);
    assert_eq!(revision.text, "ab");
    assert_eq!(revision.raw, "r\n");
}

#[test]
fn one_revision_is_processed_in_place() {
    let mut revision = PageRevision { text: "== T ==\n[[x|y]] z ".to_string(), raw: String::new() };
    Parser::new().process_revision(&mut revision);
    assert_eq!(revision.raw, "== T ==\n[[x|y]] z ");
    assert_eq!(revision.text, "T\ny z");
    let mut revision = PageRevision { text: " [[x|y]] ".to_string(), raw: "kept".to_string() };
    Parser::new().process_text(false).process_revision(&mut revision);
    assert_eq!(revision.raw, "kept");
    assert_eq!(revision.text, "[[x|y]]");
}
