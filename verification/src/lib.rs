//! An in-memory outline document model and its plain-text serializer.
//!
//! A document is a tree of [`Node`] headlines.  Each node carries optional
//! metadata (a TODO keyword, a [`Priority`], planning timestamps, a
//! properties drawer) plus ordered content segments and ordered children.
//! Rendering walks the tree depth-first and appends star-prefixed headline
//! blocks to a `String` sink; every byte of the output is pinned down by the
//! spec functions beside each renderer.

pub mod builder;
pub mod chars;
pub mod chrono_bridge;
pub mod content;
pub mod laws;
pub mod node;
pub mod priority;
pub mod time;

pub use builder::NodeBuilder;
pub use content::CheckList;
pub use content::ListItem;
pub use content::Text;
pub use node::Node;
pub use priority::Priority;
pub use time::Timestamp;
pub use time::Weekday;
