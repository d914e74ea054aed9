use wikidump::{Page, PageRevision, Parser, Site};

fn revision(text: &str) -> PageRevision {
    PageRevision { text: text.to_string(), raw: String::new() }
}

#[test]
fn new_values_are_empty() {
    let revision = PageRevision::new();
    assert_eq!(revision.text, "");
    assert_eq!(revision.raw, "");
    let page = Page::new();
    assert_eq!(page.title, "");
    assert!(page.revisions.is_empty());
    let site = Site::new();
    assert_eq!(site.name, "");
    assert_eq!(site.url, "");
    assert!(site.pages.is_empty());
}

#[test]
fn duplicates_hold_the_same() {
    let page = Page {
        title: "t".to_string(),
        revisions: vec![
            PageRevision { text: "a".to_string(), raw: "b".to_string() },
            revision("c"),
        ],
    };
    let copy = page.duplicate();
    assert_eq!(copy.title, "t");
    assert_eq!(copy.revisions.len(), 2);
    assert_eq!(copy.revisions[0].text, "a");
    assert_eq!(copy.revisions[0].raw, "b");
    assert_eq!(copy.revisions[1].text, "c");
    assert_eq!(copy.revisions[1].raw, "");
    let single = page.revisions[0].duplicate();
    assert_eq!(single.text, "a");
    assert_eq!(single.raw, "b");
}

#[test]
fn scanning_keeps_the_wiki_text() {
    let dump = "<page><ns>0</ns><title> T </title><revision><text> ''x''\n</text></revision></page>";
    let site = Parser::new().scan(dump.as_bytes()).unwrap();
    assert_eq!(site.pages.len(), 1);
    assert_eq!(site.pages[0].title, " T ");
    assert_eq!(site.pages[0].revisions[0].text, " ''x''\n");
    assert_eq!(site.pages[0].revisions[0].raw, "");
    let site = Parser::new().parse(dump.as_bytes()).unwrap();
    assert_eq!(site.pages[0].title, " T ");
    assert_eq!(site.pages[0].revisions[0].text, "x");
    assert_eq!(site.pages[0].revisions[0].raw, " ''x''\n");
}

#[test]
fn every_revision_of_every_page_is_processed() {
    let mut site = Site {
        name: " n ".to_string(),
        url: " u ".to_string(),
        pages: vec![
            Page { title: " first ".to_string(), revisions: vec![revision(" [[a|b]] "), revision("")] },
            Page { title: "empty".to_string(), revisions: vec![] },
            Page { title: "last".to_string(), revisions: vec![revision("== h ==\nx\\ty")] },
        ],
    };
    Parser::new().process_site(&mut site);
    assert_eq!(site.name, " n ");
    assert_eq!(site.url, " u ");
    assert_eq!(site.pages.len(), 3);
    assert_eq!(site.pages[0].title, " first ");
    assert_eq!(site.pages[0].revisions.len(), 2);
    assert_eq!(site.pages[0].revisions[0].text, "b");
    assert_eq!(site.pages[0].revisions[0].raw, " [[a|b]] ");
    assert_eq!(site.pages[0].revisions[1].text, "");
    assert!(site.pages[1].revisions.is_empty());
    assert_eq!(site.pages[2].revisions[0].text, "h\nxy");
    assert_eq!(site.pages[2].revisions[0].raw, "== h ==\nx\\ty");
}

#[test]
fn one_page_is_processed() {
    let mut page = Page { title: "t".to_string(), revisions: vec![revision(" a\nb "), revision("c\r")] };
    Parser::new().process_text(false).remove_newlines(true).process_page(&mut page);
    assert_eq!(page.title, "t");
    assert_eq!(page.revisions.len(), 2);
    assert_eq!(page.revisions[0].text, "ab");
    assert_eq!(page.revisions[1].text, "c");
    assert_eq!(page.revisions[0].raw, "");
}
