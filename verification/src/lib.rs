//! Verified state and layout decisions of a small set of UI components:
//! collapsible lists, input groups and a keyed cache of markdown states.

pub mod input_group;
pub mod collapsible_list;
pub mod markdown_cache;
