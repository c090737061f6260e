//! The tag context stack: the spans that are open, innermost last.

use vstd::prelude::*;
use crate::event::{SpanTag, SpanTagView};
use crate::model::struck;

verus! {

/// The tags of the spans that are currently open, innermost last.
pub struct TagStack {
    tags: Vec<SpanTag>,
}

impl View for TagStack {
    type V = Seq<SpanTagView>;

    closed spec fn view(&self) -> Seq<SpanTagView> {
        self.tags.deep_view()
    }
}

/// Whether `tag` is the strikethrough tag.
pub fn is_strikethrough(tag: &SpanTag) -> (yes: bool)
    ensures
        yes == (tag@ == SpanTagView::Strikethrough),
{
    match tag {
        SpanTag::Strikethrough => true,
        _ => false,
    }
}

impl TagStack {
    /// The empty stack.
    pub fn new() -> (stack: TagStack)
        ensures
            stack@ == Seq::<SpanTagView>::empty(),
    {
        TagStack { tags: Vec::new() }
    }

    /// The number of open spans.
    pub fn depth(&self) -> (depth: usize)
        ensures
            depth == self@.len(),
    {
        self.tags.len()
    }

    /// Opens a span: `tag` becomes the innermost tag.
    pub fn push(&mut self, tag: SpanTag)
        ensures
            final(self)@ == old(self)@.push(tag@),
    {
        self.tags.push(tag);
    }

    /// Closes the innermost span and returns its tag. On the empty stack this
    /// does nothing and returns `None`.
    pub fn pop(&mut self) -> (popped: Option<SpanTag>)
        ensures
            popped is None <==> old(self)@.len() == 0,
            popped is None ==> final(self)@ == old(self)@,
            popped matches Some(tag) ==> tag@ == old(self)@.last(),
            popped is Some ==> final(self)@ == old(self)@.drop_last(),
    {
        self.tags.pop()
    }

    /// Whether any open span, at any depth, is a strikethrough span.
    pub fn contains_strikethrough(&self) -> (found: bool)
        ensures
            found == struck(self@),
    {
        let mut i: usize = 0;
        while i < self.tags.len()
            invariant
                i <= self.tags.len(),
                forall|j: int| 0 <= j < i ==> self@[j] != SpanTagView::Strikethrough,
            decreases self.tags.len() - i,
        {
            if is_strikethrough(&self.tags[i]) {
                assert(self@[i as int] == SpanTagView::Strikethrough);
                return true;
            }
            i += 1;
        }
        false
    }
}

} // verus!
