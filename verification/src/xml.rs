//! The XML tokenizer, seen as a queue of tokens.

use quick_xml::events::Event;
use quick_xml::Reader;
use vstd::prelude::*;

verus! {

/// A `quick_xml::Reader` over a document held in memory. Its state is
/// opaque; contracts speak of the tokens it has yet to yield.
#[verifier::external_body]
pub struct TokenReader<'a> {
    inner: Reader<&'a [u8]>,
}

/// One structural token of an XML document.
pub enum XmlToken {
    /// An opening tag, with the bytes of its name.
    Start(Seq<u8>),
    /// A closing tag, with the bytes of its name.
    End(Seq<u8>),
    /// Character data between tags, still escaped.
    Text(Seq<u8>),
    /// Anything else that is well formed: an empty-element tag, a comment,
    /// a CDATA section, a declaration, a processing instruction, a doctype.
    Other,
    /// The end of the input.
    Eof,
    /// A fault that the tokenizer reported.
    Malformed,
}

/// What the scanner gets to see of one token.
pub enum XmlEvent {
    Start(Vec<u8>),
    End(Vec<u8>),
    Other,
    Eof,
    Malformed,
}

impl XmlEvent {
    /// True when this event is what the scanner sees of `token`.
    pub open spec fn announces(self, token: XmlToken) -> bool {
        match (self, token) {
            (XmlEvent::Start(name), XmlToken::Start(bytes)) => name@ == bytes,
            (XmlEvent::End(name), XmlToken::End(bytes)) => name@ == bytes,
            (XmlEvent::Other, XmlToken::Text(_)) => true,
            (XmlEvent::Other, XmlToken::Other) => true,
            (XmlEvent::Eof, XmlToken::Eof) => true,
            (XmlEvent::Malformed, XmlToken::Malformed) => true,
            _ => false,
        }
    }
}

/// The tokens that a reader has yet to yield, up to and including the first
/// end of input or fault. Once these are used up the reader reports the end
/// of input forever.
pub uninterp spec fn pending_tokens(reader: TokenReader) -> Seq<XmlToken>;

/// The tokens of a whole document held in memory, read without checking that
/// closing tags match and without trimming the names in closing tags.
pub uninterp spec fn document_tokens(bytes: Seq<u8>) -> Seq<XmlToken>;

/// What reading the text of the element `name` gives when `tokens` are
/// pending just behind its opening tag: the unescaped text, or `None` where
/// it cannot be read, and the tokens that are pending afterwards.
pub uninterp spec fn element_text(tokens: Seq<XmlToken>, name: Seq<u8>) -> (
    Option<Seq<char>>,
    Seq<XmlToken>,
);

/// Wraps `Reader::from_reader` on a byte slice, followed by
/// `check_end_names(false)` and `trim_markup_names_in_closing_tags(false)`.
/// Claims that the new reader has the tokens of the document pending.
#[verifier::external_body]
pub(crate) fn open_reader<'a>(bytes: &'a [u8]) -> (reader: TokenReader<'a>)
    ensures
        pending_tokens(reader) == document_tokens(bytes@),
{
    let mut inner = Reader::from_reader(bytes);
    inner.check_end_names(false);
    inner.trim_markup_names_in_closing_tags(false);
    TokenReader { inner }
}

/// Wraps `Reader::read_event`. Claims that the call takes the first pending
/// token off the queue and reports it, a text token as `Other` and an error
/// as `Malformed`; and that with nothing pending it reports the end of input
/// and leaves the queue empty.
#[verifier::external_body]
pub(crate) fn next_event(reader: &mut TokenReader) -> (event: XmlEvent)
    ensures
        pending_tokens(*old(reader)).len() > 0 ==> event.announces(pending_tokens(*old(reader))[0])
            && pending_tokens(*final(reader)) == pending_tokens(*old(reader)).drop_first(),
        pending_tokens(*old(reader)).len() == 0 ==> event is Eof && pending_tokens(*final(reader))
            == pending_tokens(*old(reader)),
{
    let mut buf = Vec::new();
    match reader.inner.read_event(&mut buf) {
        Ok(Event::Start(e)) => XmlEvent::Start(e.name().to_vec()),
        Ok(Event::End(e)) => XmlEvent::End(e.name().to_vec()),
        Ok(Event::Eof) => XmlEvent::Eof,
        Ok(_) => XmlEvent::Other,
        Err(_) => XmlEvent::Malformed,
    }
}

/// Wraps `Reader::read_text`. Claims that text and remaining tokens are those
/// that `element_text` names, and that a successful read has used up at least
/// one token.
#[verifier::external_body]
pub(crate) fn read_element_text(reader: &mut TokenReader, name: &[u8]) -> (text: Option<String>)
    ensures
        text is Some == element_text(pending_tokens(*old(reader)), name@).0 is Some,
        text is Some ==> element_text(pending_tokens(*old(reader)), name@).0 == Some(text->0@),
        pending_tokens(*final(reader)) == element_text(pending_tokens(*old(reader)), name@).1,
        text is Some ==> pending_tokens(*final(reader)).len() < pending_tokens(*old(reader)).len(),
{
    let mut buf = Vec::new();
    reader.inner.read_text(name, &mut buf).ok()
}

} // verus!
