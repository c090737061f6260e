//! The event source: `pulldown_cmark` parses, and this module hands its events
//! on in the library's own types.
//!
//! What the parser does is not proved here. It is taken as a function from the
//! source text to a sequence of events, [`markdown_events`], which a parser
//! yields one by one. The rest of the library is proved for every sequence of
//! events, so also for the one that the parser yields.

use vstd::prelude::*;
use crate::event::{DocEvent, DocEventView, SpanTag};

verus! {

/// `pulldown_cmark::Parser`, opaque here: a parser is made by [`new_parser`]
/// and read by [`next_event`], and nothing else is done with it.
#[verifier::external_type_specification]
#[verifier::external_body]
pub struct ExMarkdownParser<'a>(pulldown_cmark::Parser<'a>);

/// `pulldown_cmark::Tag`, opaque here: a tag is only handed to [`tag_of`].
#[verifier::external_type_specification]
#[verifier::external_body]
pub struct ExMarkdownTag<'a>(pulldown_cmark::Tag<'a>);

/// The events that `pulldown_cmark` yields for `source` when strikethrough is
/// the only extension enabled, each brought into the library's types: a tag
/// keeps its kind and, for a link or an image, its title; text and code keep
/// their content. This is a name for what the parser does, not a definition
/// of it.
pub uninterp spec fn markdown_events(source: Seq<char>) -> Seq<DocEventView>;

/// The events that `parser` has yet to yield, in the order in which it will
/// yield them, each brought into the library's types.
pub uninterp spec fn pending_events(parser: pulldown_cmark::Parser) -> Seq<DocEventView>;

/// Brings a tag of `pulldown_cmark` into the library's type. The kinds that
/// have a rendering rule keep their kind, a link or an image keeps its title,
/// and every other kind becomes [`SpanTag::Other`].
#[verifier::external_body]
fn tag_of(tag: pulldown_cmark::Tag<'_>) -> (own: SpanTag) {
    match tag {
        pulldown_cmark::Tag::Paragraph => SpanTag::Paragraph,
        pulldown_cmark::Tag::Heading(_) => SpanTag::Heading,
        pulldown_cmark::Tag::List(_) => SpanTag::List,
        pulldown_cmark::Tag::Item => SpanTag::Item,
        pulldown_cmark::Tag::Link(_, _, title) => SpanTag::Link(title.into_string()),
        pulldown_cmark::Tag::Image(_, _, title) => SpanTag::Image(title.into_string()),
        pulldown_cmark::Tag::CodeBlock(_) => SpanTag::CodeBlock,
        pulldown_cmark::Tag::Table(_) => SpanTag::Table,
        pulldown_cmark::Tag::TableHead => SpanTag::TableHead,
        pulldown_cmark::Tag::TableRow => SpanTag::TableRow,
        pulldown_cmark::Tag::Strikethrough => SpanTag::Strikethrough,
        _ => SpanTag::Other,
    }
}

/// `pulldown_cmark::Parser::new_ext` on `markdown`, with strikethrough as the
/// only extension. The contract names what the new parser will yield and
/// claims one thing of it: that it depends on the text alone.
#[verifier::external_body]
fn new_parser(markdown: &str) -> (parser: pulldown_cmark::Parser<'_>)
    ensures
        pending_events(parser) == markdown_events(markdown@),
{
    let mut options = pulldown_cmark::Options::empty();
    options.insert(pulldown_cmark::Options::ENABLE_STRIKETHROUGH);
    pulldown_cmark::Parser::new_ext(markdown, options)
}

/// `next` of `pulldown_cmark::Parser`, the parser being an iterator over its
/// events: the first of the pending events, which is then no longer pending,
/// or `None` once none is left. The event comes in the library's type: start,
/// end, text, inline code and soft break keep their kind and content, and
/// every other event becomes [`DocEvent::Other`].
#[verifier::external_body]
fn next_event(parser: &mut pulldown_cmark::Parser<'_>) -> (event: Option<DocEvent>)
    ensures
        event is None <==> pending_events(*old(parser)).len() == 0,
        event is None ==> pending_events(*final(parser)) == pending_events(*old(parser)),
        event matches Some(first) ==> first@ == pending_events(*old(parser)).first(),
        event is Some ==> pending_events(*final(parser)) == pending_events(
            *old(parser),
        ).drop_first(),
{
    Some(match parser.next()? {
        pulldown_cmark::Event::Start(tag) => DocEvent::StartTag(tag_of(tag)),
        pulldown_cmark::Event::End(tag) => DocEvent::EndTag(tag_of(tag)),
        pulldown_cmark::Event::Text(content) => DocEvent::Text(content.into_string()),
        pulldown_cmark::Event::Code(content) => DocEvent::CodeSpan(content.into_string()),
        pulldown_cmark::Event::SoftBreak => DocEvent::SoftBreak,
        _ => DocEvent::Other,
    })
}

/// Parses `markdown` into its events, in document order. Strikethrough is the
/// only extension that is enabled: table and task list syntax are read as
/// ordinary text.
pub fn parse_markdown(markdown: &str) -> (events: Vec<DocEvent>)
    ensures
        events.deep_view() == markdown_events(markdown@),
{
    let mut parser = new_parser(markdown);
    let mut events: Vec<DocEvent> = Vec::new();
    loop
        invariant
            events.deep_view() + pending_events(parser) == markdown_events(markdown@),
        ensures
            events.deep_view() == markdown_events(markdown@),
        decreases pending_events(parser).len(),
    {
        match next_event(&mut parser) {
            Some(event) => events.push(event),
            None => break,
        }
    }
    events
}

} // verus!
