//! Markup dialect profiles for MediaWiki sites and languages.

use vstd::prelude::*;

pub mod wikipedia;

verus! {

/// What a profile holds.
pub ghost struct ProfileView {
    pub category_namespaces: Seq<Seq<char>>,
    pub extension_tags: Seq<Seq<char>>,
    pub file_namespaces: Seq<Seq<char>>,
    pub link_trail: Seq<char>,
    pub magic_words: Seq<Seq<char>>,
    pub protocols: Seq<Seq<char>>,
    pub redirect_magic_words: Seq<Seq<char>>,
}

/// The site-specific data that the markup parser is configured with.
#[derive(Debug, Clone)]
pub struct MarkupProfile {
    /// Aliases of the category namespace.
    pub category_namespaces: Vec<&'static str>,
    /// Tag names of extension tags.
    pub extension_tags: Vec<&'static str>,
    /// Aliases of the file namespace.
    pub file_namespaces: Vec<&'static str>,
    /// Characters that can appear in link trails.
    pub link_trail: &'static str,
    /// Magic words that can appear between `__` and `__`.
    pub magic_words: Vec<&'static str>,
    /// Protocols that can be used for external links.
    pub protocols: Vec<&'static str>,
    /// Magic words that can be used for redirects.
    pub redirect_magic_words: Vec<&'static str>,
}

/// The words of a list, each as its characters.
pub open spec fn words(list: Seq<&'static str>) -> Seq<Seq<char>> {
    Seq::new(list.len(), |i: int| list[i]@)
}

impl View for MarkupProfile {
    type V = ProfileView;

    open spec fn view(&self) -> ProfileView {
        ProfileView {
            category_namespaces: words(self.category_namespaces@),
            extension_tags: words(self.extension_tags@),
            file_namespaces: words(self.file_namespaces@),
            link_trail: self.link_trail@,
            magic_words: words(self.magic_words@),
            protocols: words(self.protocols@),
            redirect_magic_words: words(self.redirect_magic_words@),
        }
    }
}

/// The extension tags of the default profile.
pub open spec fn default_extension_tags() -> Seq<Seq<char>> {
    seq![
        "categorytree"@,
        "ce"@,
        "charinsert"@,
        "chem"@,
        "gallery"@,
        "graph"@,
        "hiero"@,
        "imagemap"@,
        "indicator"@,
        "inputbox"@,
        "mapframe"@,
        "maplink"@,
        "math"@,
        "nowiki"@,
        "poem"@,
        "pre"@,
        "ref"@,
        "references"@,
        "score"@,
        "section"@,
        "source"@,
        "syntaxhighlight"@,
        "templatedata"@,
        "timeline"@,
    ]
}

/// The magic words of the default profile.
pub open spec fn default_magic_words() -> Seq<Seq<char>> {
    seq![
        "DISAMBIG"@,
        "FORCETOC"@,
        "HIDDENCAT"@,
        "INDEX"@,
        "NEWSECTIONLINK"@,
        "NOCC"@,
        "NOCOLLABORATIONHUBTOC"@,
        "NOCONTENTCONVERT"@,
        "NOEDITSECTION"@,
        "NOGALLERY"@,
        "NOGLOBAL"@,
        "NOINDEX"@,
        "NONEWSECTIONLINK"@,
        "NOTC"@,
        "NOTITLECONVERT"@,
        "NOTOC"@,
        "STATICREDIRECT"@,
        "TOC"@,
    ]
}

/// The protocols that can start an external link, in the default profile
/// and on Wikipedia.
pub open spec fn link_protocols() -> Seq<Seq<char>> {
    seq![
        "//"@,
        "bitcoin:"@,
        "ftp://"@,
        "ftps://"@,
        "geo:"@,
        "git://"@,
        "gopher://"@,
        "http://"@,
        "https://"@,
        "irc://"@,
        "ircs://"@,
        "magnet:"@,
        "mailto:"@,
        "mms://"@,
        "news:"@,
        "nntp://"@,
        "redis://"@,
        "sftp://"@,
        "sip:"@,
        "sips:"@,
        "sms:"@,
        "ssh://"@,
        "svn://"@,
        "tel:"@,
        "telnet://"@,
        "urn:"@,
        "worldwind://"@,
        "xmpp:"@,
    ]
}

/// The profile that the markup parser works with where none is chosen.
pub open spec fn default_profile() -> ProfileView {
    ProfileView {
        category_namespaces: seq!["category"@],
        extension_tags: default_extension_tags(),
        file_namespaces: seq!["file"@, "image"@],
        link_trail: "ABCDEFGHIJKLMNOPQRSTUVWXYZabcdefghijklmnopqrstuvwxyz"@,
        magic_words: default_magic_words(),
        protocols: link_protocols(),
        redirect_magic_words: seq!["REDIRECT"@],
    }
}

} // verus!
