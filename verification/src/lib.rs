//! A single shared text document, "the board", served as HTML pages.
//!
//! The crate holds the rules of the board and none of its input or output:
//! the caller performs each storage operation and passes on what the storage
//! reported, and the functions here decide what that means, which page is
//! rendered over which body, and how failures surface. The pages are the
//! deployment's, as long as they are plain: markup with a place for the body.

pub mod error;
pub mod format;
pub mod laws;
pub mod page;
pub mod plan;
pub mod render;
pub mod service;
pub mod store;
pub mod template;
