//! Detection of clickable elements: the role/state/bounds data model, the
//! filter pipeline, and the pure part of the accessibility-tree scan.

pub mod filters;
pub mod scanner;
pub mod types;
