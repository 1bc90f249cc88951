//! Decision engine of an unused-binding lint: given a binding that has no
//! read references, decide whether a language-specific exemption applies, so
//! that reporting it would be a false positive.
//!
//! The engine consumes a resolved, immutable model of one source file: a
//! syntax tree with parent links, a scope tree, and a symbol table. Building
//! that model (parsing, scope resolution, reference binding) is the concern
//! of a separate analyzer; the engine only reads it.
//!
//! Alongside the engine sits the entry filter of the file walker (`walk`):
//! the traversal itself is I/O and lives with the driver, but which entries
//! it keeps is decided here.

pub mod allowed;
pub mod ast;
pub mod binding_pattern;
pub mod options;
pub mod semantic;
pub mod walk;
