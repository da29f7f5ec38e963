//! Verified core of a disk-cleanup tool: it scans a directory tree for
//! directories with a given target name (pruning descent into matches),
//! sizes each match, builds a catalog sorted by size, and drives the
//! interactive select-and-confirm state machine that decides what to delete.
use vstd::prelude::*;

pub mod catalog;
pub mod label;
pub mod report;
pub mod scan;
pub mod session;
pub mod tree;

pub use catalog::{build_entries, collect_entries, sort_entries_desc, NodeModuleEntry};
pub use label::{display_path, human_label, render_line, render_lines};
pub use report::{summarize_outcomes, DeleteReport};
pub use scan::find_node_modules;
pub use session::{Action, App, Key, Mode};
pub use tree::{dir_size_recursive, DirTree};

verus! {

} // verus!
