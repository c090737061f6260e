//! What the renderer computes, as a function of the sequence of events.
//!
//! The state of a pass is the sequence of open tags, innermost last. An event
//! contributes a piece of text that depends on the event and on the tags open
//! before it; the raw text of a document is the concatenation of these pieces,
//! and the plain text is the raw text trimmed.

use vstd::prelude::*;
use crate::event::{DocEventView, SpanTagView};
use crate::text::trimmed;

verus! {

/// The marker that opens a list item: a bullet and a space.
pub open spec fn bullet() -> Seq<char> {
    seq!['\u{2022}', ' ']
}

/// The separator that closes a block: two newlines.
pub open spec fn blank_line() -> Seq<char> {
    seq!['\n', '\n']
}

/// The end of a line: one newline.
pub open spec fn line_end() -> Seq<char> {
    seq!['\n']
}

/// What entering `tag` appends: the title of a link or an image, the bullet of
/// a list item, nothing for any other tag.
pub open spec fn start_text(tag: SpanTagView) -> Seq<char> {
    match tag {
        SpanTagView::Link(title) => title,
        SpanTagView::Image(title) => title,
        SpanTagView::Item => bullet(),
        _ => Seq::empty(),
    }
}

/// What leaving `tag` appends: a blank line after a paragraph, a table, a
/// heading or a list; a newline after a code block, a table head, a table row
/// or a list item; nothing for any other tag.
pub open spec fn end_text(tag: SpanTagView) -> Seq<char> {
    match tag {
        SpanTagView::Paragraph
        | SpanTagView::Table
        | SpanTagView::Heading
        | SpanTagView::List => blank_line(),
        SpanTagView::CodeBlock
        | SpanTagView::TableHead
        | SpanTagView::TableRow
        | SpanTagView::Item => line_end(),
        _ => Seq::empty(),
    }
}

/// Whether a strikethrough span is open, at any depth.
pub open spec fn struck(stack: Seq<SpanTagView>) -> bool {
    stack.contains(SpanTagView::Strikethrough)
}

/// What `event` appends when the tags of `stack` are open.
pub open spec fn event_text(stack: Seq<SpanTagView>, event: DocEventView) -> Seq<char> {
    match event {
        DocEventView::StartTag(tag) => start_text(tag),
        DocEventView::EndTag(tag) => end_text(tag),
        DocEventView::Text(content) => if struck(stack) {
            Seq::empty()
        } else {
            content
        },
        DocEventView::CodeSpan(content) => content,
        DocEventView::SoftBreak => seq![' '],
        DocEventView::Other => Seq::empty(),
    }
}

/// The open tags after `event`: a start pushes its tag, an end removes the
/// innermost tag if there is one, any other event leaves the stack as it is.
pub open spec fn stack_step(stack: Seq<SpanTagView>, event: DocEventView) -> Seq<SpanTagView> {
    match event {
        DocEventView::StartTag(tag) => stack.push(tag),
        DocEventView::EndTag(_) => if stack.len() > 0 {
            stack.drop_last()
        } else {
            stack
        },
        _ => stack,
    }
}

/// The open tags after `events`, starting with `stack` open.
pub open spec fn stack_after(
    stack: Seq<SpanTagView>,
    events: Seq<DocEventView>,
) -> Seq<SpanTagView>
    decreases events.len(),
{
    if events.len() == 0 {
        stack
    } else {
        stack_step(stack_after(stack, events.drop_last()), events.last())
    }
}

/// The text that `events` append, starting with `stack` open.
pub open spec fn text_after(stack: Seq<SpanTagView>, events: Seq<DocEventView>) -> Seq<char>
    decreases events.len(),
{
    if events.len() == 0 {
        Seq::empty()
    } else {
        text_after(stack, events.drop_last()) + event_text(
            stack_after(stack, events.drop_last()),
            events.last(),
        )
    }
}

/// The tags still open at the end of a document.
pub open spec fn open_tags(events: Seq<DocEventView>) -> Seq<SpanTagView> {
    stack_after(Seq::empty(), events)
}

/// The buffer at the end of a document, before it is trimmed.
pub open spec fn raw_text(events: Seq<DocEventView>) -> Seq<char> {
    text_after(Seq::empty(), events)
}

/// The plain text of a document.
pub open spec fn plain_text(events: Seq<DocEventView>) -> Seq<char> {
    trimmed(raw_text(events))
}

} // verus!
