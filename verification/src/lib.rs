//! An import-specifier rewriting engine.
//!
//! Given the top-level items of a module and a table of per-package rules,
//! the engine turns `import { A, B } from "pkg"` into one direct import per
//! member, optionally followed by a side-effect style import, and can forbid
//! whole-module imports of a configured package.

pub mod ast;
pub mod case;
pub mod config;
pub mod laws;
pub mod resolve;
pub mod rewrite;
pub mod template;
mod text;

pub use case::TransformMember;
pub use config::{ConfigParseError, TransformVisitorConfigs, TransformVisitorSubConfig};
pub use rewrite::{process_transform, transform_import_path, FullImportViolation, TransformVisitor};
