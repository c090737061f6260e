//! The renderer: one pass over the events, appending to one buffer.

use vstd::prelude::*;
use crate::event::{DocEvent, SpanTag};
use crate::model::{
    end_text, event_text, open_tags, plain_text, raw_text, stack_step, start_text,
};
use crate::stack::TagStack;
use crate::text::trim;

verus! {

/// The start rule: appends to `buffer` what entering `tag` contributes.
pub fn start_tag(tag: &SpanTag, buffer: &mut String)
    ensures
        final(buffer)@ == old(buffer)@ + start_text(tag@),
{
    match tag {
        SpanTag::Link(title) => buffer.append(title.as_str()),
        SpanTag::Image(title) => buffer.append(title.as_str()),
        SpanTag::Item => {
            proof {
                reveal_strlit("\u{2022} ");
            }
            buffer.append("\u{2022} ")
        },
        _ => {},
    }
}

/// The end rule: appends to `buffer` what leaving `tag` contributes.
pub fn end_tag(tag: &SpanTag, buffer: &mut String)
    ensures
        final(buffer)@ == old(buffer)@ + end_text(tag@),
{
    match tag {
        SpanTag::Paragraph | SpanTag::Table | SpanTag::Heading | SpanTag::List => {
            proof {
                reveal_strlit("\n\n");
            }
            buffer.append("\n\n")
        },
        SpanTag::CodeBlock | SpanTag::TableHead | SpanTag::TableRow | SpanTag::Item => {
            proof {
                reveal_strlit("\n");
            }
            buffer.append("\n")
        },
        _ => {},
    }
}

/// Consumes one event: appends to `buffer` what the event contributes while
/// the tags of `stack` are open, then opens or closes a span on `stack` if the
/// event is a start or an end. An end on the empty stack closes nothing.
pub fn render_event(event: DocEvent, stack: &mut TagStack, buffer: &mut String)
    ensures
        final(buffer)@ == old(buffer)@ + event_text(old(stack)@, event@),
        final(stack)@ == stack_step(old(stack)@, event@),
{
    match event {
        DocEvent::StartTag(tag) => {
            start_tag(&tag, buffer);
            stack.push(tag);
        },
        DocEvent::EndTag(tag) => {
            end_tag(&tag, buffer);
            stack.pop();
        },
        DocEvent::Text(content) => {
            if !stack.contains_strikethrough() {
                buffer.append(content.as_str());
            }
        },
        DocEvent::CodeSpan(content) => buffer.append(content.as_str()),
        DocEvent::SoftBreak => {
            proof {
                reveal_strlit(" ");
            }
            buffer.append(" ")
        },
        DocEvent::Other => {},
    }
}

/// Renders a document: the plain text of `events`.
///
/// The events are consumed in order, each exactly once, starting from an empty
/// buffer with no span open; the result is the buffer without its leading and
/// trailing whitespace.
pub fn render(events: Vec<DocEvent>) -> (text: String)
    ensures
        text@ == plain_text(events.deep_view()),
{
    let ghost all = events.deep_view();
    let mut stack = TagStack::new();
    let mut buffer = String::new();
    for event in iter: events.into_iter()
        invariant
            iter.seq().len() == all.len(),
            forall|i: int| 0 <= i < all.len() ==> (#[trigger] iter.seq()[i])@ == all[i],
            stack@ == open_tags(all.take(iter.index() as int)),
            buffer@ == raw_text(all.take(iter.index() as int)),
    {
        proof {
            let n = iter.index() as int;
            assert(all.take(n + 1).drop_last() =~= all.take(n));
        }
        render_event(event, &mut stack, &mut buffer);
    }
    proof {
        assert(all.take(all.len() as int) =~= all);
    }
    trim(buffer.as_str())
}

} // verus!
