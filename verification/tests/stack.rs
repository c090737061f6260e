use strip_markdown::{is_strikethrough, SpanTag, TagStack};

#[test]
fn new_stack_is_empty() {
    let stack = TagStack::new();
    assert_eq!(stack.depth(), 0);
    assert!(!stack.contains_strikethrough());
}

#[test]
fn push_appends_and_pop_removes_the_last() {
    let mut stack = TagStack::new();
    stack.push(SpanTag::List);
    stack.push(SpanTag::Item);
    stack.push(SpanTag::Link("title".to_string()));
    assert_eq!(stack.depth(), 3);
    assert_eq!(stack.pop(), Some(SpanTag::Link("title".to_string())));
    assert_eq!(stack.pop(), Some(SpanTag::Item));
    assert_eq!(stack.depth(), 1);
    assert_eq!(stack.pop(), Some(SpanTag::List));
    assert_eq!(stack.depth(), 0);
}

#[test]
fn pop_on_the_empty_stack_does_nothing() {
    let mut stack = TagStack::new();
    assert_eq!(stack.pop(), None);
    assert_eq!(stack.pop(), None);
    assert_eq!(stack.depth(), 0);
    stack.push(SpanTag::Paragraph);
    assert_eq!(stack.depth(), 1);
    assert_eq!(stack.pop(), Some(SpanTag::Paragraph));
    assert_eq!(stack.pop(), None);
    assert_eq!(stack.depth(), 0);
}

#[test]
fn strikethrough_is_found_on_top() {
    let mut stack = TagStack::new();
    stack.push(SpanTag::Paragraph);
    assert!(!stack.contains_strikethrough());
    stack.push(SpanTag::Strikethrough);
    assert!(stack.contains_strikethrough());
}

#[test]
fn strikethrough_is_found_below_other_tags() {
    let mut stack = TagStack::new();
    stack.push(SpanTag::List);
    stack.push(SpanTag::Item);
    stack.push(SpanTag::Strikethrough);
    stack.push(SpanTag::Other);
    stack.push(SpanTag::Link(String::new()));
    assert!(stack.contains_strikethrough());
    stack.pop();
    stack.pop();
    assert!(stack.contains_strikethrough());
    stack.pop();
    assert!(!stack.contains_strikethrough());
}

#[test]
fn strikethrough_at_the_bottom_is_found() {
    let mut stack = TagStack::new();
    stack.push(SpanTag::Strikethrough);
    for _ in 0..100 {
        stack.push(SpanTag::Other);
    }
    assert_eq!(stack.depth(), 101);
    assert!(stack.contains_strikethrough());
}

#[test]
fn only_the_strikethrough_tag_is_strikethrough() {
    assert!(is_strikethrough(&SpanTag::Strikethrough));
    let others = [
        SpanTag::Paragraph,
        SpanTag::Heading,
        SpanTag::List,
        SpanTag::Item,
        SpanTag::Link("Strikethrough".to_string()),
        SpanTag::Image(String::new()),
        SpanTag::CodeBlock,
        SpanTag::Table,
        SpanTag::TableHead,
        SpanTag::TableRow,
        SpanTag::Other,
    ];
    for tag in others {
        assert!(!is_strikethrough(&tag), "{:?}", tag);
    }
}
