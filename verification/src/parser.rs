//! The parser: scanning a dump, then turning the wiki text of every revision
//! into plain text.

use crate::compression::{decompress, decompressed, has_bzip2_signature, is_compressed};
use crate::config::{default_profile, MarkupProfile, ProfileView};
use crate::markup::{flatten, get_text_from_nodes, node_views, MarkupNode, NodeView};
use crate::scanner::{outcome_view, scan_document, scan_outcome, ParseError};
use crate::site::{Page, PageRevision, PageView, RevisionView, Site, SiteView};
use crate::text::{
    chars_of, free_of_line_breaks, lemma_trimmed_keeps_free_of_line_breaks,
    lemma_without_line_breaks_is_free, remove_line_breaks, remove_tab_escapes, string_of,
    trim_to_string, trimmed, without_line_breaks, without_tab_escapes,
};
use crate::wiki::{build_configuration, default_configuration, dialect, markup_nodes, parse_markup};
use parse_wiki_text::Configuration;
use vstd::prelude::*;
use vstd::string::StringSliceAdditionalSpecFns;

verus! {

/// The settings of a parser.
pub ghost struct ParserView {
    /// Wiki text is turned into plain text.
    pub process_text: bool,
    /// Line breaks are removed from the text of every revision.
    pub remove_newlines: bool,
    /// Only pages of namespace `0` are kept.
    pub exclude_pages: bool,
    /// The markup dialect.
    pub dialect: ProfileView,
}

impl ParserView {
    /// The settings of a new parser: wiki text is processed, line breaks are
    /// kept, only articles are kept, and the dialect is the default profile.
    pub open spec fn initial() -> ParserView {
        ParserView {
            process_text: true,
            remove_newlines: false,
            exclude_pages: true,
            dialect: default_profile(),
        }
    }
}

/// The plain text of a node sequence, with the escape artifacts deleted.
pub open spec fn rendered(nodes: Seq<NodeView>) -> Seq<char> {
    without_tab_escapes(flatten(nodes))
}

/// A text with its line breaks removed, where that is asked for, and then
/// trimmed.
pub open spec fn tidied(text: Seq<char>, remove_newlines: bool) -> Seq<char> {
    trimmed(
        if remove_newlines {
            without_line_breaks(text)
        } else {
            text
        },
    )
}

/// A revision after post-processing under the given settings.
pub open spec fn processed_revision(revision: RevisionView, settings: ParserView) -> RevisionView {
    if settings.process_text {
        RevisionView {
            text: tidied(
                rendered(markup_nodes(settings.dialect, revision.text)),
                settings.remove_newlines,
            ),
            raw: revision.text,
        }
    } else {
        RevisionView { text: tidied(revision.text, settings.remove_newlines), raw: revision.raw }
    }
}

/// A page after the post-processing of its revisions.
pub open spec fn processed_page(page: PageView, settings: ParserView) -> PageView {
    PageView {
        title: page.title,
        revisions: Seq::new(
            page.revisions.len(),
            |j: int| processed_revision(page.revisions[j], settings),
        ),
    }
}

/// A site after the post-processing of every revision of every page.
pub open spec fn processed_site(site: SiteView, settings: ParserView) -> SiteView {
    SiteView {
        name: site.name,
        url: site.url,
        pages: Seq::new(site.pages.len(), |i: int| processed_page(site.pages[i], settings)),
    }
}

/// The outcome of parsing a plain document: the scanned site, post-processed.
pub open spec fn parse_outcome(bytes: Seq<u8>, settings: ParserView) -> Result<
    SiteView,
    ParseError,
> {
    match scan_outcome(bytes, settings.exclude_pages) {
        Ok(site) => Ok(processed_site(site, settings)),
        Err(error) => Err(error),
    }
}

/// The outcome of parsing the content of a file: a document that starts with
/// the bzip2 signature is decompressed first.
pub open spec fn file_outcome(data: Seq<u8>, settings: ParserView) -> Result<SiteView, ParseError> {
    if has_bzip2_signature(data) {
        match decompressed(data) {
            Some(plain) => parse_outcome(plain, settings),
            None => Err(ParseError::Decompression),
        }
    } else {
        parse_outcome(data, settings)
    }
}

/// True when no revision of the site has a line break in its text.
pub open spec fn site_free_of_line_breaks(site: SiteView) -> bool {
    forall|i: int, j: int|
        0 <= i < site.pages.len() && 0 <= j < site.pages[i].revisions.len()
            ==> free_of_line_breaks(#[trigger] site.pages[i].revisions[j].text)
}

/// With line-break removal switched on, no revision of a post-processed site
/// has a line feed or a carriage return in its text.
pub proof fn lemma_no_line_breaks_remain(site: SiteView, settings: ParserView)
    requires
        settings.remove_newlines,
    ensures
        site_free_of_line_breaks(processed_site(site, settings)),
{
    let after = processed_site(site, settings);
    assert forall|i: int, j: int|
        0 <= i < after.pages.len() && 0 <= j < after.pages[i].revisions.len()
        implies free_of_line_breaks(#[trigger] after.pages[i].revisions[j].text) by {
        let before = site.pages[i].revisions[j];
        let source = if settings.process_text {
            rendered(markup_nodes(settings.dialect, before.text))
        } else {
            before.text
        };
        lemma_without_line_breaks_is_free(source);
        lemma_trimmed_keeps_free_of_line_breaks(without_line_breaks(source));
    }
}

/// Post-processing keeps the name and the URL of the site, the number, order
/// and titles of its pages, and the number of revisions of each page.
pub proof fn lemma_processing_keeps_the_shape(site: SiteView, settings: ParserView)
    ensures
        processed_site(site, settings).name == site.name,
        processed_site(site, settings).url == site.url,
        processed_site(site, settings).pages.len() == site.pages.len(),
        forall|i: int|
            0 <= i < site.pages.len() ==> (#[trigger] processed_site(
                site,
                settings,
            ).pages[i]).title == site.pages[i].title,
        forall|i: int|
            0 <= i < site.pages.len() ==> (#[trigger] processed_site(
                site,
                settings,
            ).pages[i]).revisions.len() == site.pages[i].revisions.len(),
{
}

/// With markup processing switched on, every revision of a post-processed
/// site keeps, as `raw`, the text it had before, whatever is done about line
/// breaks.
pub proof fn lemma_raw_text_is_preserved(site: SiteView, settings: ParserView)
    requires
        settings.process_text,
    ensures
        forall|i: int, j: int|
            0 <= i < site.pages.len() && 0 <= j < site.pages[i].revisions.len()
                ==> (#[trigger] processed_site(site, settings).pages[i].revisions[j]).raw
                == site.pages[i].revisions[j].text,
{
}

/// A text held in memory and the same bytes taken as the content of a plain
/// file parse alike.
pub proof fn lemma_text_and_file_content_agree(text: &str, settings: ParserView)
    requires
        !has_bzip2_signature(text.spec_bytes()),
    ensures
        file_outcome(text.spec_bytes(), settings) == parse_outcome(text.spec_bytes(), settings),
{
}

/// A plain document and its bzip2-compressed form parse alike.
pub proof fn lemma_compression_is_transparent(
    plain: Seq<u8>,
    compressed: Seq<u8>,
    settings: ParserView,
)
    requires
        !has_bzip2_signature(plain),
        has_bzip2_signature(compressed),
        decompressed(compressed) == Some(plain),
    ensures
        file_outcome(compressed, settings) == file_outcome(plain, settings),
{
}

/// Replaces the wiki text of a revision by the plain text of its node tree,
/// and keeps the wiki text as `raw`.
pub fn render_revision(revision: &mut PageRevision, nodes: &Vec<MarkupNode>)
    ensures
        final(revision)@ == (RevisionView {
            text: rendered(node_views(nodes@)),
            raw: old(revision).text@,
        }),
{
    let flat = get_text_from_nodes(nodes);
    let cleaned = remove_tab_escapes(&chars_of(flat.as_str()));
    let text = string_of(&cleaned, 0, cleaned.len());
    assert(cleaned@.subrange(0, cleaned@.len() as int) =~= cleaned@);
    revision.raw = revision.text.clone();
    revision.text = text;
}

/// Removes the line breaks from the text of a revision, where that is asked
/// for, and trims it.
pub fn tidy_revision(revision: &mut PageRevision, remove_newlines: bool)
    ensures
        final(revision)@ == (RevisionView {
            text: tidied(old(revision).text@, remove_newlines),
            raw: old(revision).raw@,
        }),
        remove_newlines ==> free_of_line_breaks(final(revision).text@),
{
    let chars = chars_of(revision.text.as_str());
    if remove_newlines {
        let kept = remove_line_breaks(&chars);
        proof {
            lemma_trimmed_keeps_free_of_line_breaks(kept@);
        }
        revision.text = trim_to_string(&kept);
    } else {
        revision.text = trim_to_string(&chars);
    }
}

/// A parser for MediaWiki XML dumps.
pub struct Parser {
    /// If true, the wiki text is parsed and turned into plain text.
    process_wiki_text: bool,
    /// If true, line breaks are removed from the text of every revision.
    remove_newlines: bool,
    /// If true, only pages that are articles are kept.
    exclude_pages: bool,
    /// The markup dialect, compiled for the markup parser.
    wiki_config: Configuration,
}

impl View for Parser {
    type V = ParserView;

    closed spec fn view(&self) -> ParserView {
        ParserView {
            process_text: self.process_wiki_text,
            remove_newlines: self.remove_newlines,
            exclude_pages: self.exclude_pages,
            dialect: dialect(self.wiki_config),
        }
    }
}

impl Default for Parser {
    /// The parser that [`Parser::new`] gives.
    fn default() -> (parser: Parser)
        ensures
            parser@ == ParserView::initial(),
    {
        Parser::new()
    }
}

impl Parser {
    /// A parser with the default settings: wiki text is processed, line
    /// breaks are kept, and only articles are kept.
    pub fn new() -> (parser: Parser)
        ensures
            parser@ == ParserView::initial(),
    {
        Parser {
            process_wiki_text: true,
            remove_newlines: false,
            exclude_pages: true,
            wiki_config: default_configuration(),
        }
    }

    /// Sets whether the parser turns wiki text into plain text or leaves it
    /// as it is.
    pub fn process_text(self, value: bool) -> (parser: Parser)
        ensures
            parser@ == (ParserView { process_text: value, ..self@ }),
    {
        let mut parser = self;
        parser.process_wiki_text = value;
        parser
    }

    /// Sets whether the parser skips the pages that are not articles.
    pub fn exclude_pages(self, value: bool) -> (parser: Parser)
        ensures
            parser@ == (ParserView { exclude_pages: value, ..self@ }),
    {
        let mut parser = self;
        parser.exclude_pages = value;
        parser
    }

    /// Sets whether the parser removes line breaks from the text.
    pub fn remove_newlines(self, value: bool) -> (parser: Parser)
        ensures
            parser@ == (ParserView { remove_newlines: value, ..self@ }),
    {
        let mut parser = self;
        parser.remove_newlines = value;
        parser
    }

    /// Sets the markup dialect.
    pub fn use_config(self, config_source: MarkupProfile) -> (parser: Parser)
        ensures
            parser@ == (ParserView { dialect: config_source@, ..self@ }),
    {
        let mut parser = self;
        parser.wiki_config = build_configuration(&config_source);
        parser
    }

    /// Post-processes one revision in place.
    pub fn process_revision(&self, revision: &mut PageRevision)
        ensures
            final(revision)@ == processed_revision(old(revision)@, self@),
            self@.process_text ==> final(revision).raw@ == old(revision).text@,
            self@.remove_newlines ==> free_of_line_breaks(final(revision).text@),
    {
        if self.process_wiki_text {
            let nodes = parse_markup(&self.wiki_config, revision.text.as_str());
            render_revision(revision, &nodes);
        }
        tidy_revision(revision, self.remove_newlines);
    }

    /// Post-processes every revision of a page.
    pub fn process_page(&self, page: &mut Page)
        ensures
            final(page)@ == processed_page(old(page)@, self@),
    {
        let mut j: usize = 0;
        while j < page.revisions.len()
            invariant
                j <= page.revisions.len() == old(page).revisions.len(),
                page.title == old(page).title,
                forall|k: int|
                    0 <= k < j ==> (#[trigger] page.revisions[k])@ == processed_revision(
                        old(page).revisions[k]@,
                        self@,
                    ),
                forall|k: int|
                    j <= k < page.revisions.len() ==> #[trigger] page.revisions[k] == old(
                        page,
                    ).revisions[k],
            decreases page.revisions.len() - j,
        {
            self.process_revision(&mut page.revisions[j]);
            j += 1;
        }
        assert(page@.revisions =~= processed_page(old(page)@, self@).revisions);
    }

    /// Post-processes every revision of every page of a site.
    pub fn process_site(&self, site: &mut Site)
        ensures
            final(site)@ == processed_site(old(site)@, self@),
    {
        let mut i: usize = 0;
        while i < site.pages.len()
            invariant
                i <= site.pages.len() == old(site).pages.len(),
                site.name == old(site).name,
                site.url == old(site).url,
                forall|k: int|
                    0 <= k < i ==> (#[trigger] site.pages[k])@ == processed_page(
                        old(site).pages[k]@,
                        self@,
                    ),
                forall|k: int|
                    i <= k < site.pages.len() ==> #[trigger] site.pages[k] == old(site).pages[k],
            decreases site.pages.len() - i,
        {
            self.process_page(&mut site.pages[i]);
            i += 1;
        }
        assert(site@.pages =~= processed_site(old(site)@, self@).pages);
    }

    /// Scans a plain document held in memory as bytes, without
    /// post-processing: every revision holds its wiki text.
    pub fn scan(&self, bytes: &[u8]) -> (result: Result<Site, ParseError>)
        ensures
            outcome_view(result) == scan_outcome(bytes@, self@.exclude_pages),
    {
        scan_document(bytes, self.exclude_pages)
    }

    /// Parses a plain document held in memory as bytes.
    pub fn parse(&self, bytes: &[u8]) -> (result: Result<Site, ParseError>)
        ensures
            outcome_view(result) == parse_outcome(bytes@, self@),
            self@.remove_newlines && result is Ok ==> site_free_of_line_breaks(result->Ok_0@),
    {
        match self.scan(bytes) {
            Ok(scanned) => {
                let mut site = scanned;
                self.process_site(&mut site);
                proof {
                    if self@.remove_newlines {
                        lemma_no_line_breaks_remain(scanned@, self@);
                    }
                }
                Ok(site)
            },
            Err(error) => Err(error),
        }
    }

    /// Parses a dump held in memory as text: the site with its pages and
    /// revisions, or the reason why the dump could not be read.
    pub fn parse_str(&self, text: &str) -> (result: Result<Site, ParseError>)
        ensures
            outcome_view(result) == parse_outcome(text.spec_bytes(), self@),
            self@.remove_newlines && result is Ok ==> site_free_of_line_breaks(result->Ok_0@),
    {
        self.parse(text.as_bytes())
    }

    /// Parses the content of a dump file, plain or bzip2-compressed.
    pub fn parse_bytes(&self, data: &[u8]) -> (result: Result<Site, ParseError>)
        requires
            data@.len() >= 3,
        ensures
            outcome_view(result) == file_outcome(data@, self@),
            self@.remove_newlines && result is Ok ==> site_free_of_line_breaks(result->Ok_0@),
    {
        if is_compressed(data) {
            match decompress(data) {
                Some(plain) => self.parse(plain.as_slice()),
                None => Err(ParseError::Decompression),
            }
        } else {
            self.parse(data)
        }
    }
}

} // verus!
