use wikidump::config;
use wikidump::Parser;

#[test]
fn can_create_parser() {
    let _parser = Parser::new();
}

#[test]
fn can_be_constructed_with_default() {
    let _parser = Parser::default();
}

#[test]
fn can_set_parser_options() {
    let _parser = Parser::new()
        .process_text(true)
        .use_config(config::wikipedia::simple_english());
}

const MEDIAWIKI_DUMP: &str = r#"
        <mediawiki xmlns="http://www.mediawiki.org/xml/export-0.10/">
            <page>
                <ns>0</ns>
                <title>alpha</title>
                <revision>
                    <text></text>
                </revision>
            </page>
            <page>
                <ns>42</ns>
                <title>beta</title>
                <revision>
                    <text></text>
                </revision>
            </page>
        </mediawiki>
    "#;

#[test]
fn can_parse_str() {
    let parser = Parser::new();

    let site = parser
        .parse_str(MEDIAWIKI_DUMP)
        .expect("Could not parse mediawiki dump");

    assert_eq!(site.pages.len(), 1);
    assert_eq!(site.pages[0].title, "alpha");
}

#[test]
fn will_exclude_pages() {
    let parser = Parser::new();

    let site = parser
        .parse_str(MEDIAWIKI_DUMP)
        .expect("Could not parse mediawiki dump");

    assert_eq!(site.pages.len(), 1);
    assert_eq!(site.pages[0].title, "alpha");
}

#[test]
fn will_not_exclude_pages() {
    let parser = Parser::new().exclude_pages(false);

    let site = parser
        .parse_str(MEDIAWIKI_DUMP)
        .expect("Could not parse mediawiki dump");

    assert_eq!(site.pages.len(), 2);
}

const NEWLINE_TEST: &str = r#"
        <mediawiki xmlns="http://www.mediawiki.org/xml/export-0.10/">
            <page>
                <ns>0</ns>
                <title>alpha</title>
                <revision>
                    <text>this is a test     \t\n\r
                        this is a test \t\r\n</text>
                </revision>
            </page>
        </mediawiki>
    "#;

#[test]
fn does_remove_newlines() {
    let parser = Parser::new().remove_newlines(true);

    let site = parser
        .parse_str(NEWLINE_TEST)
        .expect("Could not parse newline test str");

    assert_eq!(site.pages.len(), 1);
    for page in site.pages {
        assert_eq!(page.revisions.len(), 1);
        for revision in page.revisions {
            assert!(!revision.text.contains('\n'));
            assert!(!revision.text.contains('\r'));
        }
    }
}

const TEXT_TEST: &str = r#"
        <mediawiki xmlns="http://www.mediawiki.org/xml/export-0.10/">
            <page>
                <ns>0</ns>
                <title>alpha</title>
                <revision>
                    <text>This is an article.
== Header ==
This is text under the header.</text>
                </revision>
            </page>
            <page>
                <ns>0</ns>
                <title>beta</title>
                <revision>
                    <text>This is paragraph 1.

This is paragraph 2.</text>
                </revision>
            </page>
        </mediawiki>
    "#;

#[test]
fn turns_headers_into_text_with_newlines() {
    let parser = Parser::new();
    let site = parser
        .parse_str(TEXT_TEST)
        .expect("Could not parse text test str");

    let text = &site.pages[0].revisions[0].text;

    assert_eq!(
        text,
        "This is an article.\nHeader\nThis is text under the header."
    );
}

#[test]
fn turns_paragraph_breaks_into_newlines() {
    let parser = Parser::new();
    let site = parser
        .parse_str(TEXT_TEST)
        .expect("Could not parse text test str");

    let text = &site.pages[1].revisions[0].text;

    assert_eq!(text, "This is paragraph 1.\nThis is paragraph 2.");
}
