//! The parsing core of a rich-text editing surface: an editor that holds an
//! ordered list of blocks, a dispatcher that turns source inputs into document
//! nodes, commands on the editor's state, and the change-driven export of the
//! document.

pub mod commands;
pub mod dispatch;
pub mod editor;
pub mod engine;
pub mod image;
pub mod markup;
pub mod node;
pub mod nodes;
pub mod paragraph;
pub mod source;
pub mod state;
pub mod text;

pub use crate::commands::bold::{MakeBold, RemoveBold};
pub use crate::dispatch::{can_process, process_node, process_nodes, try_process_nodes};
pub use crate::editor::{EditorBlock, EditorExt, HtmlBlock, HtmlNode};
pub use crate::engine::{Block, Command, Editor};
pub use crate::image::{Image, ImageBlock};
pub use crate::markup::Markup;
pub use crate::node::{EditorNode, Node};
pub use crate::nodes::{
    BlockQuote, BlockQuoteBlock, BulletList, BulletListBlock, Header, HeaderBlock, ListItem,
    ListItemBlock, TaskItem, TaskItemBlock, TaskList, TaskListBlock,
};
pub use crate::paragraph::{Paragraph, ParagraphBlock};
pub use crate::source::{ImageSource, SourceKind, SourceNode};
pub use crate::state::{EditorState, Phase, SurfaceEdit};
pub use crate::text::{
    Bold, BoldBlock, InlineCode, InlineCodeBlock, Italic, ItalicBlock, TextNode, TextNodeBlock,
};
