//! The dump scanner: a state machine that turns the structural tokens of a
//! dump into a site with its pages and revisions.

use crate::site::{Page, PageRevision, PageView, RevisionView, Site, SiteView};
use crate::xml::{
    document_tokens, element_text, next_event, open_reader, pending_tokens, read_element_text,
    XmlEvent, XmlToken,
};
use vstd::prelude::*;
use vstd::string::StringExecFns;
use vstd::string::StringSliceAdditionalSpecFns;

verus! {

/// The elements of a dump that the scanner knows.
#[derive(Clone, Copy, Debug, PartialEq, Eq, Structural)]
pub enum ElementKind {
    SiteInfo,
    SiteName,
    Base,
    Page,
    Title,
    Namespace,
    Revision,
    Text,
    Other,
}

/// Where in the dump the scanner stands.
#[derive(Clone, Copy, Debug, PartialEq, Eq, Structural)]
pub enum Place {
    Outside,
    InSiteInfo,
    InPage,
}

/// The places that the text of an element is read into.
#[derive(Clone, Copy, Debug, PartialEq, Eq, Structural)]
pub enum Field {
    SiteName,
    BaseUrl,
    Title,
    Namespace,
    RevisionText,
}

/// Why a dump could not be read.
#[derive(Clone, Copy, Debug, PartialEq, Eq, Structural)]
pub enum ParseError {
    /// The tokenizer reported a fault in the document.
    Malformed,
    /// The text of an element that feeds this field could not be read.
    UnreadableText(Field),
    /// The input carries the signature of a compressed stream and could not
    /// be decompressed.
    Decompression,
}

/// The kind of the element with this name.
pub open spec fn element_kind(name: Seq<u8>) -> ElementKind {
    if name == "siteinfo".spec_bytes() {
        ElementKind::SiteInfo
    } else if name == "sitename".spec_bytes() {
        ElementKind::SiteName
    } else if name == "base".spec_bytes() {
        ElementKind::Base
    } else if name == "page".spec_bytes() {
        ElementKind::Page
    } else if name == "title".spec_bytes() {
        ElementKind::Title
    } else if name == "ns".spec_bytes() {
        ElementKind::Namespace
    } else if name == "revision".spec_bytes() {
        ElementKind::Revision
    } else if name == "text".spec_bytes() {
        ElementKind::Text
    } else {
        ElementKind::Other
    }
}

/// The state of a scan: the site built so far, the page and the revision
/// being gathered, and what decides the handling of the next token.
pub ghost struct ScanState {
    pub site: SiteView,
    pub page: PageView,
    pub revision: RevisionView,
    pub skipping: bool,
    pub place: Place,
    pub exclude_pages: bool,
}

impl ScanState {
    /// The state before the first token.
    pub open spec fn initial(exclude_pages: bool) -> ScanState {
        ScanState {
            site: SiteView::empty(),
            page: PageView { title: Seq::empty(), revisions: Seq::empty() },
            revision: RevisionView { text: Seq::empty(), raw: Seq::empty() },
            skipping: false,
            place: Place::Outside,
            exclude_pages,
        }
    }

    /// The field that wants the text of an element of this kind that opens
    /// in this state, if any. A skipped page wants none.
    pub open spec fn wanted_field(self, kind: ElementKind) -> Option<Field> {
        if self.skipping {
            None
        } else {
            match (self.place, kind) {
                (Place::InSiteInfo, ElementKind::SiteName) => Some(Field::SiteName),
                (Place::InSiteInfo, ElementKind::Base) => Some(Field::BaseUrl),
                (Place::InPage, ElementKind::Title) => Some(Field::Title),
                (Place::InPage, ElementKind::Namespace) => if self.exclude_pages {
                    Some(Field::Namespace)
                } else {
                    None
                },
                (Place::InPage, ElementKind::Text) => Some(Field::RevisionText),
                _ => None,
            }
        }
    }

    /// The state after an element opens whose text no field wants.
    pub open spec fn after_start(self, kind: ElementKind) -> ScanState {
        if self.skipping {
            self
        } else {
            match kind {
                ElementKind::SiteInfo => ScanState { place: Place::InSiteInfo, ..self },
                ElementKind::Page => ScanState { place: Place::InPage, ..self },
                _ => self,
            }
        }
    }

    /// The state after the text of an element was read into `field`. A
    /// namespace other than `0` marks the page as skipped.
    pub open spec fn after_text(self, field: Field, text: Seq<char>) -> ScanState {
        match field {
            Field::SiteName => ScanState { site: SiteView { name: text, ..self.site }, ..self },
            Field::BaseUrl => ScanState { site: SiteView { url: text, ..self.site }, ..self },
            Field::Title => ScanState { page: PageView { title: text, ..self.page }, ..self },
            Field::Namespace => ScanState { skipping: self.skipping || text != "0"@, ..self },
            Field::RevisionText => ScanState {
                revision: RevisionView { text: text, ..self.revision },
                ..self
            },
        }
    }

    /// The state after an element closes. A revision that closes joins its
    /// page; a page that closes joins the site unless it is skipped.
    pub open spec fn after_end(self, kind: ElementKind) -> ScanState {
        match (self.place, kind) {
            (Place::InPage, ElementKind::Revision) => ScanState {
                page: PageView { revisions: self.page.revisions.push(self.revision), ..self.page },
                revision: RevisionView { text: Seq::empty(), ..self.revision },
                ..self
            },
            (Place::InPage, ElementKind::Page) => ScanState {
                site: if self.skipping {
                    self.site
                } else {
                    SiteView { pages: self.site.pages.push(self.page), ..self.site }
                },
                page: PageView { title: Seq::empty(), revisions: Seq::empty() },
                skipping: false,
                place: Place::Outside,
                ..self
            },
            _ => self,
        }
    }
}

/// The outcome of scanning `tokens` from `state`: the site at the end of the
/// input, or the first failure.
pub open spec fn scan(tokens: Seq<XmlToken>, state: ScanState) -> Result<SiteView, ParseError>
    decreases tokens.len(),
{
    if tokens.len() == 0 {
        Ok(state.site)
    } else {
        let rest = tokens.drop_first();
        match tokens[0] {
            XmlToken::Eof => Ok(state.site),
            XmlToken::Malformed => Err(ParseError::Malformed),
            XmlToken::Other => scan(rest, state),
            XmlToken::Text(_) => scan(rest, state),
            XmlToken::End(name) => scan(rest, state.after_end(element_kind(name))),
            XmlToken::Start(name) => {
                let kind = element_kind(name);
                match state.wanted_field(kind) {
                    None => scan(rest, state.after_start(kind)),
                    Some(field) => {
                        let (text, after) = element_text(rest, name);
                        if text is Some && after.len() < rest.len() {
                            scan(after, state.after_text(field, text->0))
                        } else {
                            Err(ParseError::UnreadableText(field))
                        }
                    },
                }
            },
        }
    }
}

/// The outcome of scanning a whole document.
pub open spec fn scan_outcome(bytes: Seq<u8>, exclude_pages: bool) -> Result<SiteView, ParseError> {
    scan(document_tokens(bytes), ScanState::initial(exclude_pages))
}

/// Once a page is marked as skipped, no element that opens in it is handled,
/// no element that closes in it lifts the mark but the page itself, and the
/// page does not join the site when it closes.
pub proof fn lemma_skipped_page_is_dropped(state: ScanState, kind: ElementKind)
    requires
        state.place == Place::InPage,
        state.skipping,
    ensures
        state.wanted_field(kind) is None,
        state.after_start(kind) == state,
        kind != ElementKind::Page ==> state.after_end(kind).skipping && state.after_end(
            kind,
        ).place == Place::InPage && state.after_end(kind).site == state.site,
        state.after_end(ElementKind::Page).site == state.site,
        !state.after_end(ElementKind::Page).skipping,
{
}

/// With the namespace filter on, a page whose namespace is not `0` is marked
/// as skipped, and a page whose namespace is `0` is marked only if it was
/// before.
pub proof fn lemma_namespace_decides_skipping(state: ScanState, text: Seq<char>)
    ensures
        state.after_text(Field::Namespace, text).skipping == (state.skipping || text != "0"@),
        state.after_text(Field::Namespace, text).site == state.site,
{
}

/// A page that closes without the mark joins the site as its last page, and
/// the pages before it stay as they were.
pub proof fn lemma_kept_page_joins_last(state: ScanState)
    requires
        state.place == Place::InPage,
        !state.skipping,
    ensures
        state.after_end(ElementKind::Page).site.pages == state.site.pages.push(state.page),
{
}

/// With the namespace filter off, no namespace is read and no page is ever
/// marked as skipped.
pub proof fn lemma_filter_off_skips_nothing(
    state: ScanState,
    kind: ElementKind,
    field: Field,
    text: Seq<char>,
)
    requires
        !state.exclude_pages,
        !state.skipping,
    ensures
        state.wanted_field(kind) != Some(Field::Namespace),
        !state.after_start(kind).skipping,
        !state.after_end(kind).skipping,
        field != Field::Namespace ==> !state.after_text(field, text).skipping,
{
}

/// No step of the scanner removes or reorders the pages that the site
/// already holds.
pub proof fn lemma_steps_keep_earlier_pages(
    state: ScanState,
    kind: ElementKind,
    field: Field,
    text: Seq<char>,
)
    ensures
        state.after_start(kind).site.pages == state.site.pages,
        state.after_text(field, text).site.pages == state.site.pages,
        state.site.pages.is_prefix_of(state.after_end(kind).site.pages),
{
}

/// The pages that the site holds at some point of a scan are the first
/// pages of the site at its end, in the same order.
pub proof fn lemma_scan_keeps_earlier_pages(tokens: Seq<XmlToken>, state: ScanState)
    ensures
        scan(tokens, state) matches Ok(site) ==> state.site.pages.is_prefix_of(site.pages),
    decreases tokens.len(),
{
    if tokens.len() > 0 {
        let rest = tokens.drop_first();
        match tokens[0] {
            XmlToken::Eof => {},
            XmlToken::Malformed => {},
            XmlToken::Other => {
                lemma_scan_keeps_earlier_pages(rest, state);
            },
            XmlToken::Text(_) => {
                lemma_scan_keeps_earlier_pages(rest, state);
            },
            XmlToken::End(name) => {
                let next = state.after_end(element_kind(name));
                lemma_scan_keeps_earlier_pages(rest, next);
                lemma_prefix_of_prefix(state.site.pages, next.site.pages, scan(rest, next));
            },
            XmlToken::Start(name) => {
                let kind = element_kind(name);
                match state.wanted_field(kind) {
                    None => {
                        lemma_scan_keeps_earlier_pages(rest, state.after_start(kind));
                    },
                    Some(field) => {
                        let (text, after) = element_text(rest, name);
                        if text is Some && after.len() < rest.len() {
                            lemma_scan_keeps_earlier_pages(
                                after,
                                state.after_text(field, text->0),
                            );
                        }
                    },
                }
            },
        }
    }
}

proof fn lemma_prefix_of_prefix(
    first: Seq<PageView>,
    second: Seq<PageView>,
    outcome: Result<SiteView, ParseError>,
)
    requires
        first.is_prefix_of(second),
        outcome matches Ok(site) ==> second.is_prefix_of(site.pages),
    ensures
        outcome matches Ok(site) ==> first.is_prefix_of(site.pages),
{
    if let Ok(site) = outcome {
        assert(first =~= site.pages.subrange(0, first.len() as int));
    }
}

/// Compares two byte strings.
pub fn bytes_equal(a: &[u8], b: &[u8]) -> (equal: bool)
    ensures
        equal == (a@ == b@),
{
    if a.len() != b.len() {
        return false;
    }
    let mut i: usize = 0;
    while i < a.len()
        invariant
            i <= a.len() == b.len(),
            forall|j: int| 0 <= j < i ==> a@[j] == b@[j],
        decreases a.len() - i,
    {
        if a[i] != b[i] {
            return false;
        }
        i += 1;
    }
    assert(a@ =~= b@);
    true
}

/// Tells which element of a dump a name stands for.
pub fn classify(name: &[u8]) -> (kind: ElementKind)
    ensures
        kind == element_kind(name@),
{
    if bytes_equal(name, "siteinfo".as_bytes()) {
        ElementKind::SiteInfo
    } else if bytes_equal(name, "sitename".as_bytes()) {
        ElementKind::SiteName
    } else if bytes_equal(name, "base".as_bytes()) {
        ElementKind::Base
    } else if bytes_equal(name, "page".as_bytes()) {
        ElementKind::Page
    } else if bytes_equal(name, "title".as_bytes()) {
        ElementKind::Title
    } else if bytes_equal(name, "ns".as_bytes()) {
        ElementKind::Namespace
    } else if bytes_equal(name, "revision".as_bytes()) {
        ElementKind::Revision
    } else if bytes_equal(name, "text".as_bytes()) {
        ElementKind::Text
    } else {
        ElementKind::Other
    }
}

/// The scanner at work: the site, the page accumulator, the revision
/// accumulator, and the flags of the state machine.
pub struct Scanner {
    pub site: Site,
    pub page: Page,
    pub revision: PageRevision,
    pub skipping: bool,
    pub place: Place,
    pub exclude_pages: bool,
}

impl View for Scanner {
    type V = ScanState;

    open spec fn view(&self) -> ScanState {
        ScanState {
            site: self.site@,
            page: self.page@,
            revision: self.revision@,
            skipping: self.skipping,
            place: self.place,
            exclude_pages: self.exclude_pages,
        }
    }
}

impl Scanner {
    /// A scanner that has seen nothing yet.
    pub fn new(exclude_pages: bool) -> (scanner: Scanner)
        ensures
            scanner@ == ScanState::initial(exclude_pages),
    {
        Scanner {
            site: Site::new(),
            page: Page::new(),
            revision: PageRevision::new(),
            skipping: false,
            place: Place::Outside,
            exclude_pages,
        }
    }

    /// The field that wants the text of an element of this kind, if any.
    pub fn wanted_field(&self, kind: ElementKind) -> (field: Option<Field>)
        ensures
            field == self@.wanted_field(kind),
    {
        if self.skipping {
            return None;
        }
        match (self.place, kind) {
            (Place::InSiteInfo, ElementKind::SiteName) => Some(Field::SiteName),
            (Place::InSiteInfo, ElementKind::Base) => Some(Field::BaseUrl),
            (Place::InPage, ElementKind::Title) => Some(Field::Title),
            (Place::InPage, ElementKind::Namespace) => if self.exclude_pages {
                Some(Field::Namespace)
            } else {
                None
            },
            (Place::InPage, ElementKind::Text) => Some(Field::RevisionText),
            _ => None,
        }
    }

    /// Takes note of an element that opens and whose text no field wants.
    pub fn start_element(&mut self, kind: ElementKind)
        ensures
            final(self)@ == old(self)@.after_start(kind),
    {
        if !self.skipping {
            match kind {
                ElementKind::SiteInfo => {
                    self.place = Place::InSiteInfo;
                },
                ElementKind::Page => {
                    self.place = Place::InPage;
                },
                _ => {},
            }
        }
    }

    /// Stores the text of an element in the field that wanted it.
    pub fn store_text(&mut self, field: Field, text: String)
        ensures
            final(self)@ == old(self)@.after_text(field, text@),
    {
        match field {
            Field::SiteName => {
                self.site.name = text;
            },
            Field::BaseUrl => {
                self.site.url = text;
            },
            Field::Title => {
                self.page.title = text;
            },
            Field::Namespace => {
                let article = String::from_str("0");
                if text != article {
                    self.skipping = true;
                }
            },
            Field::RevisionText => {
                self.revision.text = text;
            },
        }
    }

    /// Takes note of an element that closes.
    pub fn end_element(&mut self, kind: ElementKind)
        ensures
            final(self)@ == old(self)@.after_end(kind),
    {
        match (self.place, kind) {
            (Place::InPage, ElementKind::Revision) => {
                let revision = self.revision.duplicate();
                self.page.revisions.push(revision);
                self.revision.text = String::new();
                assert(self.page@.revisions =~= old(self).page@.revisions.push(
                    old(self).revision@,
                ));
            },
            (Place::InPage, ElementKind::Page) => {
                if !self.skipping {
                    let page = self.page.duplicate();
                    self.site.pages.push(page);
                    assert(self.site@.pages =~= old(self).site@.pages.push(old(self).page@));
                }
                self.page = Page::new();
                self.skipping = false;
                self.place = Place::Outside;
            },
            _ => {},
        }
    }

    /// The site built so far.
    pub fn into_site(self) -> (site: Site)
        ensures
            site@ == self@.site,
    {
        self.site
    }
}

/// The view of a scan result.
pub open spec fn outcome_view(result: Result<Site, ParseError>) -> Result<SiteView, ParseError> {
    match result {
        Ok(site) => Ok(site@),
        Err(error) => Err(error),
    }
}

/// Scans a whole document held in memory: the site with the raw text of
/// every revision, or the first failure.
pub fn scan_document(bytes: &[u8], exclude_pages: bool) -> (result: Result<Site, ParseError>)
    ensures
        outcome_view(result) == scan_outcome(bytes@, exclude_pages),
{
    let mut reader = open_reader(bytes);
    let mut scanner = Scanner::new(exclude_pages);
    loop
        invariant
            scan(pending_tokens(reader), scanner@) == scan_outcome(bytes@, exclude_pages),
        decreases pending_tokens(reader).len(),
    {
        match next_event(&mut reader) {
            XmlEvent::Eof => {
                return Ok(scanner.into_site());
            },
            XmlEvent::Malformed => {
                return Err(ParseError::Malformed);
            },
            XmlEvent::Other => {},
            XmlEvent::End(name) => {
                scanner.end_element(classify(name.as_slice()));
            },
            XmlEvent::Start(name) => {
                let kind = classify(name.as_slice());
                match scanner.wanted_field(kind) {
                    None => {
                        scanner.start_element(kind);
                    },
                    Some(field) => {
                        match read_element_text(&mut reader, name.as_slice()) {
                            Some(text) => {
                                scanner.store_text(field, text);
                            },
                            None => {
                                return Err(ParseError::UnreadableText(field));
                            },
                        }
                    },
                }
            },
        }
    }
}

} // verus!
