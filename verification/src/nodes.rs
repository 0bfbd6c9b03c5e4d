//! Headings, quotations and lists.

pub mod block_quote;
pub mod bullet_list;
pub mod heading;
pub mod list_item;
pub mod task_item;
pub mod task_list;

pub use self::block_quote::{BlockQuote, BlockQuoteBlock};
pub use self::bullet_list::{BulletList, BulletListBlock};
pub use self::heading::{Header, HeaderBlock};
pub use self::list_item::{ListItem, ListItemBlock};
pub use self::task_item::{TaskItem, TaskItemBlock};
pub use self::task_list::{TaskList, TaskListBlock};
