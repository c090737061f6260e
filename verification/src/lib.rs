//! Plain text from Markdown.
//!
//! A document is a sequence of structural events ([`DocEvent`]). The renderer
//! walks that sequence once, keeps the tags of the open spans on a
//! [`TagStack`], and appends to one buffer what each event contributes; the
//! trimmed buffer is the result.
//!
//! - [`event`]: events and tags, and what they are in contracts.
//! - [`model`]: what the result is, for every sequence of events.
//! - [`stack`], [`render`], [`text`]: the executable functions, each proved
//!   against the model.
//! - [`laws`]: what follows from the model for every document.
//! - [`parse`]: the event source, `pulldown_cmark`, which is trusted.

pub mod event;
pub mod laws;
pub mod model;
pub mod parse;
pub mod render;
pub mod stack;
pub mod text;

pub use event::{DocEvent, DocEventView, SpanTag, SpanTagView};
pub use parse::{markdown_events, parse_markdown};
pub use render::{end_tag, render, render_event, start_tag};
pub use stack::{is_strikethrough, TagStack};

use vstd::prelude::*;

verus! {

/// The plain text of a Markdown document: `markdown` is parsed, with
/// strikethrough as the only extension, and the events are rendered.
#[must_use]
pub fn strip_markdown(markdown: &str) -> (text: String)
    ensures
        text@ == model::plain_text(markdown_events(markdown@)),
{
    render(parse_markdown(markdown))
}

} // verus!
