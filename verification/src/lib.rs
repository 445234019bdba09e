//! GitNote: pages kept as Markdown files in a Git repository, with their
//! metadata indexed in a database.
pub mod error;
pub mod history;
pub mod lifecycle;
pub mod ext;
pub mod markdown;
pub mod models;
pub mod service;
pub mod store;
pub mod text;
