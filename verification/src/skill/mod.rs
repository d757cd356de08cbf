//! Skill documents: their typed model and the validator that builds it from
//! parsed frontmatter.
pub mod fields;
pub mod types;
pub mod governance;
pub mod semantics;
pub mod source;
pub mod validate;
pub mod runner;
