//! The state behind a debugger's variable panel, and the description of a few
//! small components drawn near it, with their behaviour stated in contracts
//! and proved.
//!
//! The panel shows the scopes of a stack frame and their variables as a tree
//! that expands on demand. [`variable_list::VariableList`] holds what is
//! expanded ([`open_entries`]), what has been fetched ([`frame_state`],
//! [`scope_variable_index`]) and what is selected ([`selection`]); the rows
//! to draw are computed from that whenever they are needed ([`flatten`]).
//! Fetching itself is left to the caller: the list says which fetch to make
//! and is told how it ended. [`laws`] states what holds across calls.

pub mod text;
pub mod open_entry;
pub mod open_entries;
pub mod variable;
pub mod scope_variable_index;
pub mod scope_state;
pub mod frame_state;
pub mod flatten;
pub mod selection;
pub mod set_variable;
pub mod variable_list;
pub mod visual_entries;
pub mod render;
pub mod laws;
pub mod geometry;
pub mod icon;
pub mod avatar;
pub mod input;
