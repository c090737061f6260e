//! Events and tags: the renderer's input.

use vstd::prelude::*;

verus! {

/// The structural kind of a span.
///
/// Only the kinds that have a rendering rule of their own are told apart; every
/// other kind of span (emphasis, strong, block quote, table cell, footnote
/// definition) is [`SpanTag::Other`] and is transparent to the renderer.
#[derive(Debug, PartialEq, Eq)]
pub enum SpanTag {
    Paragraph,
    Heading,
    List,
    Item,
    /// A link, with its title attribute.
    Link(String),
    /// An image, with its title attribute.
    Image(String),
    CodeBlock,
    Table,
    TableHead,
    TableRow,
    Strikethrough,
    Other,
}

/// What a [`SpanTag`] is in contracts: the same kinds, a title being a sequence
/// of characters.
pub enum SpanTagView {
    Paragraph,
    Heading,
    List,
    Item,
    Link(Seq<char>),
    Image(Seq<char>),
    CodeBlock,
    Table,
    TableHead,
    TableRow,
    Strikethrough,
    Other,
}

impl View for SpanTag {
    type V = SpanTagView;

    open spec fn view(&self) -> SpanTagView {
        match *self {
            SpanTag::Paragraph => SpanTagView::Paragraph,
            SpanTag::Heading => SpanTagView::Heading,
            SpanTag::List => SpanTagView::List,
            SpanTag::Item => SpanTagView::Item,
            SpanTag::Link(title) => SpanTagView::Link(title@),
            SpanTag::Image(title) => SpanTagView::Image(title@),
            SpanTag::CodeBlock => SpanTagView::CodeBlock,
            SpanTag::Table => SpanTagView::Table,
            SpanTag::TableHead => SpanTagView::TableHead,
            SpanTag::TableRow => SpanTagView::TableRow,
            SpanTag::Strikethrough => SpanTagView::Strikethrough,
            SpanTag::Other => SpanTagView::Other,
        }
    }
}

impl DeepView for SpanTag {
    type V = SpanTagView;

    open spec fn deep_view(&self) -> SpanTagView {
        self@
    }
}

impl Clone for SpanTag {
    /// A tag of the same kind, with the same title.
    fn clone(&self) -> (copy: SpanTag)
        ensures
            copy == *self,
    {
        match self {
            SpanTag::Paragraph => SpanTag::Paragraph,
            SpanTag::Heading => SpanTag::Heading,
            SpanTag::List => SpanTag::List,
            SpanTag::Item => SpanTag::Item,
            SpanTag::Link(title) => SpanTag::Link(title.clone()),
            SpanTag::Image(title) => SpanTag::Image(title.clone()),
            SpanTag::CodeBlock => SpanTag::CodeBlock,
            SpanTag::Table => SpanTag::Table,
            SpanTag::TableHead => SpanTag::TableHead,
            SpanTag::TableRow => SpanTag::TableRow,
            SpanTag::Strikethrough => SpanTag::Strikethrough,
            SpanTag::Other => SpanTag::Other,
        }
    }
}

/// One unit of a parsed document.
#[derive(Debug, PartialEq, Eq)]
pub enum DocEvent {
    /// A span opens.
    StartTag(SpanTag),
    /// A span closes.
    EndTag(SpanTag),
    /// A run of text.
    Text(String),
    /// The content of an inline code span.
    CodeSpan(String),
    /// A line wrap inside flowing text.
    SoftBreak,
    /// Any other event (hard break, raw HTML, footnote reference, rule, task
    /// list marker): the renderer ignores it.
    Other,
}

/// What a [`DocEvent`] is in contracts.
pub enum DocEventView {
    StartTag(SpanTagView),
    EndTag(SpanTagView),
    Text(Seq<char>),
    CodeSpan(Seq<char>),
    SoftBreak,
    Other,
}

impl View for DocEvent {
    type V = DocEventView;

    open spec fn view(&self) -> DocEventView {
        match *self {
            DocEvent::StartTag(tag) => DocEventView::StartTag(tag@),
            DocEvent::EndTag(tag) => DocEventView::EndTag(tag@),
            DocEvent::Text(content) => DocEventView::Text(content@),
            DocEvent::CodeSpan(content) => DocEventView::CodeSpan(content@),
            DocEvent::SoftBreak => DocEventView::SoftBreak,
            DocEvent::Other => DocEventView::Other,
        }
    }
}

impl DeepView for DocEvent {
    type V = DocEventView;

    open spec fn deep_view(&self) -> DocEventView {
        self@
    }
}

impl Clone for DocEvent {
    /// An event of the same kind, with the same tag or content.
    fn clone(&self) -> (copy: DocEvent)
        ensures
            copy == *self,
    {
        match self {
            DocEvent::StartTag(tag) => DocEvent::StartTag(tag.clone()),
            DocEvent::EndTag(tag) => DocEvent::EndTag(tag.clone()),
            DocEvent::Text(content) => DocEvent::Text(content.clone()),
            DocEvent::CodeSpan(content) => DocEvent::CodeSpan(content.clone()),
            DocEvent::SoftBreak => DocEvent::SoftBreak,
            DocEvent::Other => DocEvent::Other,
        }
    }
}

} // verus!
