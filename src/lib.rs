//! Traversal engines for four-level page-table hierarchies.

pub mod entry;
pub mod table;
pub mod walk;
pub mod visit;
pub mod visit_mut;
pub mod memory;
pub mod recorder;

pub mod laws;
