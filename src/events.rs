//! The markdown event stream that the renderer folds over: a closed set of
//! the constructs it acts on, with everything else marked as passed over.

use vstd::prelude::*;

verus! {

/// The construct that a `Start` event opens.
#[derive(Clone, Debug)]
pub enum MdTag {
    Paragraph,
    /// A heading of the given level, 1 to 6.
    Heading(u8),
    /// A code block, with the fence's language token for fenced blocks.
    CodeBlock(Option<String>),
    List,
    Item,
    Table,
    TableCell,
    Emphasis,
    Strong,
    /// A link, with its destination.
    Link(String),
    /// A construct the renderer passes over: block quotes, HTML blocks,
    /// footnotes, definition lists, table head and row starts,
    /// strikethrough, images, metadata blocks.
    Other,
}

/// The construct that an `End` event closes.
#[derive(Clone, Copy, Debug, PartialEq, Eq, Structural)]
pub enum MdTagEnd {
    Paragraph,
    Heading,
    CodeBlock,
    List,
    Item,
    Table,
    TableHead,
    TableRow,
    TableCell,
    Emphasis,
    Strong,
    Link,
    /// A construct the renderer passes over (see `MdTag::Other`).
    Other,
}

/// One event of the markdown stream.
#[derive(Clone, Debug)]
pub enum MdEvent {
    Start(MdTag),
    End(MdTagEnd),
    Text(String),
    /// Inline code.
    Code(String),
    SoftBreak,
    HardBreak,
    /// An event the renderer passes over: math, inline and block HTML,
    /// footnote references, rules, task list markers.
    Other,
}

} // verus!
