//! Module resolution and export materialisation for a store of reusable
//! configuration modules.
//!
//! A module is a directory holding a manifest and template files. This crate
//! decides where each file of a module is written, builds the variable tree
//! handed to the template renderer, and walks the modules that a module names.
//! It touches no file: callers read and write, and hand over what they found.
//!
//! - [`path`]: paths as text, their components and prefixes.
//! - [`store`]: where the store and its modules lie.
//! - [`manifest`]: the decoded manifest and global defaults.
//! - [`template`]: the context of template variables and how it is built.
//! - [`render`]: rendering a template with the `upon` engine.
//! - [`export`]: the destination of each file of a module.
//! - [`apply`]: what is done for each entry of a module's source tree.
//! - [`deps`]: the walk of the modules that a module names.
//! - [`generate`]: creating, reading and destroying modules.
//! - [`args`], [`error`]: the commands and the failures.

pub mod apply;
pub mod args;
pub mod deps;
pub mod error;
pub mod export;
pub mod generate;
pub mod manifest;
pub mod path;
pub mod render;
pub mod store;
pub mod template;
