//! Attaches traceability attributes to the markup that UI components return:
//! which component rendered a node, which tag it is, and which file it is from.

pub mod ast;
pub mod config;
pub mod jsx_utils;
pub mod constants;
pub mod names;
pub mod path_utils;
pub mod rules;
pub mod laws;
pub mod visitor;

pub use path_utils::extract_filename_for_test;
pub use visitor::ReactComponentAnnotateVisitor;
