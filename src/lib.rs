//! Renders markdown into styled terminal lines, with highlighted code blocks
//! and laid-out tables, plus the small pieces of chat-client state that sit
//! around the renderer.

pub mod chat;
pub mod events;
pub mod highlight;
pub mod markdown;
pub mod parse;
pub mod render;
pub mod style;
pub mod table;
pub mod text;
pub mod transcript;
pub mod widgets;

pub use events::{MdEvent, MdTag, MdTagEnd};
pub use markdown::MarkdownRenderer;
pub use style::{Color, Modifiers, Style, StyledLine, StyledSpan};
pub use chat::{ApiMessage, App, InputMode, Message, MessageContent, Role, ScrollState, StatusType};
pub use widgets::{HelpWidget, LoadingWidget};
