//! Notion: page/property mapping, page bodies as Markdown, request policy.
pub mod client;
pub mod mapping;
pub mod markdown;
