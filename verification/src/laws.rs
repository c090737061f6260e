//! Laws of the rendering model.
//!
//! Each law is proved from the definitions in [`crate::model`] and
//! [`crate::text`], the ones that the contracts of the executable functions
//! are stated over.

use vstd::prelude::*;
use crate::event::{DocEventView, SpanTagView};
use crate::model::{
    blank_line, end_text, event_text, open_tags, plain_text, raw_text, stack_after, stack_step,
    start_text, struck, text_after,
};
use crate::text::{
    all_whitespace, is_whitespace, law_trim_cut, law_trim_ignores_outer_whitespace, trimmed,
};

verus! {

/// One more event: the pass goes on from where the events before it ended.
pub proof fn lemma_after_push(
    stack: Seq<SpanTagView>,
    events: Seq<DocEventView>,
    event: DocEventView,
)
    ensures
        stack_after(stack, events.push(event)) == stack_step(stack_after(stack, events), event),
        text_after(stack, events.push(event)) == text_after(stack, events) + event_text(
            stack_after(stack, events),
            event,
        ),
{
    assert(events.push(event).drop_last() =~= events);
}

/// The pass is compositional: rendering `first + second` is rendering
/// `first`, then rendering `second` with the tags open that `first` left open.
pub proof fn lemma_after_concat(
    stack: Seq<SpanTagView>,
    first: Seq<DocEventView>,
    second: Seq<DocEventView>,
)
    ensures
        stack_after(stack, first + second) == stack_after(stack_after(stack, first), second),
        text_after(stack, first + second) == text_after(stack, first) + text_after(
            stack_after(stack, first),
            second,
        ),
    decreases second.len(),
{
    if second.len() > 0 {
        let front = second.drop_last();
        assert((first + second).drop_last() =~= first + front);
        lemma_after_concat(stack, first, front);
        let middle = stack_after(stack, first);
        assert(text_after(stack, first + second) =~= text_after(stack, first) + (text_after(
            middle,
            front,
        ) + event_text(stack_after(middle, front), second.last())));
    }
}

/// The text of one event on its own.
pub proof fn lemma_single(stack: Seq<SpanTagView>, event: DocEventView)
    ensures
        stack_after(stack, seq![event]) == stack_step(stack, event),
        text_after(stack, seq![event]) == event_text(stack, event),
{
    lemma_after_push(stack, Seq::empty(), event);
}

/// The empty document renders as the empty text.
pub proof fn law_empty_document()
    ensures
        plain_text(Seq::empty()) == Seq::<char>::empty(),
{
}

/// A document that is one paragraph of one run of text, with no markup in it,
/// renders as that text, trimmed.
pub proof fn law_plain_paragraph(content: Seq<char>)
    ensures
        plain_text(
            seq![
                DocEventView::StartTag(SpanTagView::Paragraph),
                DocEventView::Text(content),
                DocEventView::EndTag(SpanTagView::Paragraph),
            ],
        ) == trimmed(content),
{
    let tag = SpanTagView::Paragraph;
    let body = seq![DocEventView::Text(content)];
    law_span(Seq::empty(), tag, body);
    let inner = Seq::<SpanTagView>::empty().push(tag);
    lemma_single(inner, DocEventView::Text(content));
    assert(seq![DocEventView::StartTag(tag)] + body + seq![DocEventView::EndTag(tag)] =~= seq![
        DocEventView::StartTag(tag),
        DocEventView::Text(content),
        DocEventView::EndTag(tag),
    ]);
    law_trim_ignores_outer_whitespace(Seq::empty(), content, blank_line());
    assert(Seq::<char>::empty() + content + blank_line() =~= start_text(tag) + content + end_text(
        tag,
    ));
}

/// While a strikethrough span is open, at any depth, a text event appends
/// nothing: the text of the document is the same whatever that event holds.
pub proof fn law_struck_text_leaves_no_trace(
    events: Seq<DocEventView>,
    at: int,
    other: Seq<char>,
)
    requires
        0 <= at < events.len(),
        events[at] is Text,
        struck(open_tags(events.take(at))),
    ensures
        event_text(open_tags(events.take(at)), events[at]) == Seq::<char>::empty(),
        raw_text(events.update(at, DocEventView::Text(other))) == raw_text(events),
        plain_text(events.update(at, DocEventView::Text(other))) == plain_text(events),
{
    let before = events.take(at);
    let after = events.skip(at + 1);
    let changed = DocEventView::Text(other);
    assert(events =~= before.push(events[at]) + after);
    assert(events.update(at, changed) =~= before.push(changed) + after);
    lemma_after_push(Seq::empty(), before, events[at]);
    lemma_after_push(Seq::empty(), before, changed);
    lemma_after_concat(Seq::empty(), before.push(events[at]), after);
    lemma_after_concat(Seq::empty(), before.push(changed), after);
}

/// Whether the span that the event at index `start` opens is still open after
/// the first `at` events: since it was opened, the stack has never come back
/// to the depth that it had before.
pub open spec fn span_open(events: Seq<DocEventView>, start: int, at: int) -> bool {
    &&& 0 <= start < at <= events.len()
    &&& events[start] is StartTag
    &&& forall|k: int|
        start < k <= at ==> (#[trigger] open_tags(events.take(k))).len() > open_tags(
            events.take(start),
        ).len()
}

/// The tag of a span that is still open is on the stack, at the depth at which
/// the span was opened, whatever was opened and closed inside it.
pub proof fn law_open_span_is_on_stack(events: Seq<DocEventView>, start: int, at: int)
    requires
        span_open(events, start, at),
    ensures
        open_tags(events.take(start)).len() < open_tags(events.take(at)).len(),
        DocEventView::StartTag(
            open_tags(events.take(at))[open_tags(events.take(start)).len() as int],
        ) == events[start],
    decreases at,
{
    assert(events.take(at) =~= events.take(at - 1).push(events[at - 1]));
    lemma_after_push(Seq::empty(), events.take(at - 1), events[at - 1]);
    if at > start + 1 {
        law_open_span_is_on_stack(events, start, at - 1);
    }
}

/// Text inside a strikethrough span does not reach the output, at whatever
/// depth below the span it stands.
pub proof fn law_strikethrough_span_is_silent(events: Seq<DocEventView>, start: int, at: int)
    requires
        span_open(events, start, at),
        events[start] == DocEventView::StartTag(SpanTagView::Strikethrough),
        at < events.len(),
        events[at] is Text,
    ensures
        struck(open_tags(events.take(at))),
        event_text(open_tags(events.take(at)), events[at]) == Seq::<char>::empty(),
        raw_text(events.take(at + 1)) == raw_text(events.take(at)),
{
    law_open_span_is_on_stack(events, start, at);
    assert(events.take(at + 1) =~= events.take(at).push(events[at]));
    lemma_after_push(Seq::empty(), events.take(at), events[at]);
}

/// A whole span, from its start to its end: what the start rule gives, then
/// the text of the body with the span's tag open, then what the end rule
/// gives. If the body closes every span that it opens, the stack is afterwards
/// as it was before.
pub proof fn law_span(stack: Seq<SpanTagView>, tag: SpanTagView, body: Seq<DocEventView>)
    ensures
        text_after(
            stack,
            seq![DocEventView::StartTag(tag)] + body + seq![DocEventView::EndTag(tag)],
        ) == start_text(tag) + text_after(stack.push(tag), body) + end_text(tag),
        stack_after(stack.push(tag), body) == stack.push(tag) ==> stack_after(
            stack,
            seq![DocEventView::StartTag(tag)] + body + seq![DocEventView::EndTag(tag)],
        ) == stack,
{
    let start = DocEventView::StartTag(tag);
    let end = DocEventView::EndTag(tag);
    lemma_single(stack, start);
    lemma_after_concat(stack, seq![start], body);
    lemma_after_concat(stack, seq![start] + body, seq![end]);
    lemma_single(stack_after(stack, seq![start] + body), end);
}

/// Leaving a heading, a paragraph, a list or a table appends one blank line,
/// two newlines, after everything that came before.
pub proof fn law_block_end(events: Seq<DocEventView>, tag: SpanTagView)
    requires
        tag is Heading || tag is Paragraph || tag is List || tag is Table,
    ensures
        raw_text(events.push(DocEventView::EndTag(tag))) == raw_text(events) + seq!['\n', '\n'],
{
    lemma_after_push(Seq::empty(), events, DocEventView::EndTag(tag));
}

/// A heading, a paragraph, a list or a table renders as its content followed
/// by one blank line.
pub proof fn law_block_span(stack: Seq<SpanTagView>, tag: SpanTagView, body: Seq<DocEventView>)
    requires
        tag is Heading || tag is Paragraph || tag is List || tag is Table,
    ensures
        text_after(
            stack,
            seq![DocEventView::StartTag(tag)] + body + seq![DocEventView::EndTag(tag)],
        ) == text_after(stack.push(tag), body) + seq!['\n', '\n'],
{
    law_span(stack, tag, body);
    assert(Seq::<char>::empty() + text_after(stack.push(tag), body) =~= text_after(
        stack.push(tag),
        body,
    ));
}

/// The final trim cuts nothing out of the middle: the plain text is one
/// contiguous piece of the raw text, from index `cut.0` up to index `cut.1`,
/// and what stands before and after that piece is whitespace only. So a blank
/// line between two blocks stays, and only the separators at the two ends of
/// the document go.
pub proof fn law_final_trim_cuts_only_the_ends(events: Seq<DocEventView>) -> (cut: (int, int))
    ensures
        0 <= cut.0 <= cut.1 <= raw_text(events).len(),
        plain_text(events) == raw_text(events).subrange(cut.0, cut.1),
        all_whitespace(raw_text(events).take(cut.0)),
        all_whitespace(raw_text(events).skip(cut.1)),
        cut.0 < cut.1 ==> !is_whitespace(plain_text(events).first()) && !is_whitespace(
            plain_text(events).last(),
        ),
{
    law_trim_cut(raw_text(events))
}

/// A link or an image renders as its title followed by its content.
pub proof fn law_titled_span(stack: Seq<SpanTagView>, tag: SpanTagView, body: Seq<DocEventView>)
    requires
        tag is Link || tag is Image,
    ensures
        text_after(
            stack,
            seq![DocEventView::StartTag(tag)] + body + seq![DocEventView::EndTag(tag)],
        ) == start_text(tag) + text_after(stack.push(tag), body),
        tag matches SpanTagView::Link(title) ==> start_text(tag) == title,
        tag matches SpanTagView::Image(title) ==> start_text(tag) == title,
{
    law_span(stack, tag, body);
}

/// A list item renders as a bullet and a space, its content, and one newline.
pub proof fn law_item_span(stack: Seq<SpanTagView>, body: Seq<DocEventView>)
    ensures
        text_after(
            stack,
            seq![DocEventView::StartTag(SpanTagView::Item)] + body + seq![
                DocEventView::EndTag(SpanTagView::Item),
            ],
        ) == seq!['\u{2022}', ' '] + text_after(stack.push(SpanTagView::Item), body) + seq!['\n'],
{
    law_span(stack, SpanTagView::Item, body);
}

/// The content of a code span is appended as it is, whatever spans are open,
/// a strikethrough span included.
pub proof fn law_code_span_verbatim(events: Seq<DocEventView>, content: Seq<char>)
    ensures
        raw_text(events.push(DocEventView::CodeSpan(content))) == raw_text(events) + content,
{
    lemma_after_push(Seq::empty(), events, DocEventView::CodeSpan(content));
}

/// The content of a text event is appended as it is, unless a strikethrough
/// span is open.
pub proof fn law_text_verbatim(events: Seq<DocEventView>, content: Seq<char>)
    requires
        !struck(open_tags(events)),
    ensures
        raw_text(events.push(DocEventView::Text(content))) == raw_text(events) + content,
{
    lemma_after_push(Seq::empty(), events, DocEventView::Text(content));
}

/// The content of a code block is appended as it is, followed by one newline,
/// unless a strikethrough span is open around the block.
pub proof fn law_code_block_verbatim(stack: Seq<SpanTagView>, content: Seq<char>)
    requires
        !struck(stack),
    ensures
        text_after(
            stack,
            seq![
                DocEventView::StartTag(SpanTagView::CodeBlock),
                DocEventView::Text(content),
                DocEventView::EndTag(SpanTagView::CodeBlock),
            ],
        ) == content + seq!['\n'],
{
    let tag = SpanTagView::CodeBlock;
    let body = seq![DocEventView::Text(content)];
    law_span(stack, tag, body);
    lemma_single(stack.push(tag), DocEventView::Text(content));
    assert(!struck(stack.push(tag)));
    assert(seq![DocEventView::StartTag(tag)] + body + seq![DocEventView::EndTag(tag)] =~= seq![
        DocEventView::StartTag(tag),
        DocEventView::Text(content),
        DocEventView::EndTag(tag),
    ]);
}

/// A soft break appends exactly one space, whatever spans are open.
pub proof fn law_soft_break(events: Seq<DocEventView>)
    ensures
        raw_text(events.push(DocEventView::SoftBreak)) == raw_text(events) + seq![' '],
{
    lemma_after_push(Seq::empty(), events, DocEventView::SoftBreak);
}

} // verus!
