//! Verified core of a goal tracker: the rules that decide how goals, projects,
//! nodes, processes and merges change, free of the input and output around them.
pub mod clock;
pub mod codec;
pub mod errors;
pub mod json;
pub mod laws;
pub mod lists;
pub mod merging;
pub mod model;
pub mod next_actions;
pub mod nodes;
pub mod paths;
pub mod process_control;
pub mod project_registry;
pub mod project_state;
pub mod text;
pub mod text_map;
pub mod work_items;
pub mod worktree_cleanup;
