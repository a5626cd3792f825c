//! A static site generator's document pipeline: front matter extraction,
//! Markdown rendering, destination and link-prefix computation, and page
//! composition through a shared template.

pub mod compose;
pub mod content;
pub mod metadata;
pub mod paths;
pub mod pipeline;
