//! A wiki site with its pages and their revisions.

use vstd::prelude::*;

verus! {

/// What a revision holds.
pub ghost struct RevisionView {
    pub text: Seq<char>,
    pub raw: Seq<char>,
}

/// What a page holds.
pub ghost struct PageView {
    pub title: Seq<char>,
    pub revisions: Seq<RevisionView>,
}

/// What a site holds.
pub ghost struct SiteView {
    pub name: Seq<char>,
    pub url: Seq<char>,
    pub pages: Seq<PageView>,
}

/// A specific revision of a page: a certain version of the page at a specific
/// time.
#[derive(Debug, Clone)]
pub struct PageRevision {
    /// The text content of the revision: the raw wiki text, or its plain-text
    /// rendering where the parser processes wiki text.
    pub text: String,
    /// The raw wiki text, kept where the parser processes wiki text.
    pub raw: String,
}

/// A wiki page.
#[derive(Debug, Clone)]
pub struct Page {
    pub title: String,
    pub revisions: Vec<PageRevision>,
}

/// A MediaWiki website, such as Wikipedia.
#[derive(Debug)]
pub struct Site {
    /// The name of the website, e.g. "Wikipedia".
    pub name: String,
    /// The base URL of the website.
    pub url: String,
    /// The wiki pages belonging to the website.
    pub pages: Vec<Page>,
}

/// The views of a sequence of revisions.
pub open spec fn revision_views(revisions: Seq<PageRevision>) -> Seq<RevisionView> {
    Seq::new(revisions.len(), |i: int| revisions[i]@)
}

/// The views of a sequence of pages.
pub open spec fn page_views(pages: Seq<Page>) -> Seq<PageView> {
    Seq::new(pages.len(), |i: int| pages[i]@)
}

impl View for PageRevision {
    type V = RevisionView;

    open spec fn view(&self) -> RevisionView {
        RevisionView { text: self.text@, raw: self.raw@ }
    }
}

impl View for Page {
    type V = PageView;

    open spec fn view(&self) -> PageView {
        PageView { title: self.title@, revisions: revision_views(self.revisions@) }
    }
}

impl View for Site {
    type V = SiteView;

    open spec fn view(&self) -> SiteView {
        SiteView { name: self.name@, url: self.url@, pages: page_views(self.pages@) }
    }
}

impl SiteView {
    /// A site without a name, a URL or pages.
    pub open spec fn empty() -> SiteView {
        SiteView { name: Seq::empty(), url: Seq::empty(), pages: Seq::empty() }
    }
}

impl PageRevision {
    /// A revision without text.
    pub fn new() -> (revision: PageRevision)
        ensures
            revision@ == (RevisionView { text: Seq::empty(), raw: Seq::empty() }),
    {
        PageRevision { text: String::new(), raw: String::new() }
    }

    /// A copy of this revision.
    pub fn duplicate(&self) -> (copy: PageRevision)
        ensures
            copy@ == self@,
    {
        PageRevision { text: self.text.clone(), raw: self.raw.clone() }
    }
}

impl Page {
    /// A page without a title or revisions.
    pub fn new() -> (page: Page)
        ensures
            page@ == (PageView { title: Seq::empty(), revisions: Seq::empty() }),
    {
        let page = Page { title: String::new(), revisions: Vec::new() };
        assert(page@.revisions =~= Seq::empty());
        page
    }

    /// A copy of this page, revisions included.
    pub fn duplicate(&self) -> (copy: Page)
        ensures
            copy@ == self@,
    {
        let mut revisions: Vec<PageRevision> = Vec::new();
        let mut i: usize = 0;
        while i < self.revisions.len()
            invariant
                i <= self.revisions.len(),
                revisions.len() == i,
                forall|j: int| 0 <= j < i ==> (#[trigger] revisions[j])@ == self.revisions[j]@,
            decreases self.revisions.len() - i,
        {
            revisions.push(self.revisions[i].duplicate());
            i += 1;
        }
        let copy = Page { title: self.title.clone(), revisions };
        assert(copy@.revisions =~= self@.revisions);
        copy
    }
}

impl Site {
    /// A site without a name, a URL or pages.
    pub fn new() -> (site: Site)
        ensures
            site@ == SiteView::empty(),
    {
        let site = Site { name: String::new(), url: String::new(), pages: Vec::new() };
        assert(site@.pages =~= Seq::empty());
        site
    }
}

} // verus!
