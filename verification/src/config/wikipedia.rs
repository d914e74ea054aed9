//! Profiles for Wikipedia, the free encyclopedia.

use crate::config::{link_protocols, words, MarkupProfile, ProfileView};
use vstd::prelude::*;

verus! {

/// The extension tags of the English Wikipedia.
pub open spec fn english_extension_tags() -> Seq<Seq<char>> {
    seq![
        "categorytree"@,
        "ce"@,
        "charinsert"@,
        "chem"@,
        "gallery"@,
        "graph"@,
        "hiero"@,
        "imagemap"@,
        "indicator"@,
        "inputbox"@,
        "mapframe"@,
        "maplink"@,
        "math"@,
        "nowiki"@,
        "poem"@,
        "pre"@,
        "ref"@,
        "references"@,
        "score"@,
        "section"@,
        "source"@,
        "syntaxhighlight"@,
        "templatedata"@,
        "templatestyles"@,
        "timeline"@,
    ]
}

/// The magic words of the English Wikipedia.
pub open spec fn english_magic_words() -> Seq<Seq<char>> {
    seq![
        "DISAMBIG"@,
        "EXPECTUNUSEDCATEGORY"@,
        "FORCETOC"@,
        "HIDDENCAT"@,
        "INDEX"@,
        "NEWSECTIONLINK"@,
        "NOCC"@,
        "NOCOLLABORATIONHUBTOC"@,
        "NOCONTENTCONVERT"@,
        "NOEDITSECTION"@,
        "NOGALLERY"@,
        "NOGLOBAL"@,
        "NOINDEX"@,
        "NONEWSECTIONLINK"@,
        "NOTC"@,
        "NOTITLECONVERT"@,
        "NOTOC"@,
        "STATICREDIRECT"@,
        "TOC"@,
    ]
}

/// The profile of the English Wikipedia.
pub open spec fn english_profile() -> ProfileView {
    ProfileView {
        category_namespaces: seq!["category"@],
        extension_tags: english_extension_tags(),
        file_namespaces: seq!["file"@, "image"@],
        link_trail: "ABCDEFGHIJKLMNOPQRSTUVWXYZabcdefghijklmnopqrstuvwxyz"@,
        magic_words: english_magic_words(),
        protocols: link_protocols(),
        redirect_magic_words: seq!["REDIRECT"@],
    }
}

/// The profile of the English Wikipedia.
pub fn english() -> (profile: MarkupProfile)
    ensures
        profile@ == english_profile(),
{
    let category_namespaces = vec!["category"];
    let extension_tags = vec![
        "categorytree",
        "ce",
        "charinsert",
        "chem",
        "gallery",
        "graph",
        "hiero",
        "imagemap",
        "indicator",
        "inputbox",
        "mapframe",
        "maplink",
        "math",
        "nowiki",
        "poem",
        "pre",
        "ref",
        "references",
        "score",
        "section",
        "source",
        "syntaxhighlight",
        "templatedata",
        "templatestyles",
        "timeline",
    ];
    let file_namespaces = vec!["file", "image"];
    let magic_words = vec![
        "DISAMBIG",
        "EXPECTUNUSEDCATEGORY",
        "FORCETOC",
        "HIDDENCAT",
        "INDEX",
        "NEWSECTIONLINK",
        "NOCC",
        "NOCOLLABORATIONHUBTOC",
        "NOCONTENTCONVERT",
        "NOEDITSECTION",
        "NOGALLERY",
        "NOGLOBAL",
        "NOINDEX",
        "NONEWSECTIONLINK",
        "NOTC",
        "NOTITLECONVERT",
        "NOTOC",
        "STATICREDIRECT",
        "TOC",
    ];
    let protocols = vec![
        "//",
        "bitcoin:",
        "ftp://",
        "ftps://",
        "geo:",
        "git://",
        "gopher://",
        "http://",
        "https://",
        "irc://",
        "ircs://",
        "magnet:",
        "mailto:",
        "mms://",
        "news:",
        "nntp://",
        "redis://",
        "sftp://",
        "sip:",
        "sips:",
        "sms:",
        "ssh://",
        "svn://",
        "tel:",
        "telnet://",
        "urn:",
        "worldwind://",
        "xmpp:",
    ];
    let redirect_magic_words = vec!["REDIRECT"];
    assert(words(category_namespaces@) =~= seq!["category"@]);
    assert(words(extension_tags@) =~= english_extension_tags());
    assert(words(file_namespaces@) =~= seq!["file"@, "image"@]);
    assert(words(magic_words@) =~= english_magic_words());
    assert(words(protocols@) =~= link_protocols());
    assert(words(redirect_magic_words@) =~= seq!["REDIRECT"@]);
    MarkupProfile {
        category_namespaces,
        extension_tags,
        file_namespaces,
        link_trail: "ABCDEFGHIJKLMNOPQRSTUVWXYZabcdefghijklmnopqrstuvwxyz",
        magic_words,
        protocols,
        redirect_magic_words,
    }
}

/// The profile of the Simple English Wikipedia, which is that of the English
/// Wikipedia.
pub fn simple_english() -> (profile: MarkupProfile)
    ensures
        profile@ == english_profile(),
{
    english()
}

} // verus!
