//! State of the widgets that present a catalog.

pub mod gallery;
