//! Indexing of photo collections that live in several independently
//! identified trees: marker resolution, date inference, content processing
//! and the decisions of a scan, with their contracts.

pub mod catalog;
pub mod content;
pub mod date;
pub mod fingerprint;
pub mod inference;
pub mod paths;
pub mod scanning;
pub mod tree;
pub mod widgets;
