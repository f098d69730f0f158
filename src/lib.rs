//! Bulk renaming of files by regular expression: the decisions behind a
//! walk over `<base>/**/<glob>` that rewrites each matching file name.

mod error;
mod finder;
mod laws;
mod plan;
mod search;

pub use error::RenameError;
pub use finder::{regex_accepts, regex_finds, regex_replace_all, rename_spec, rename_text};
pub use laws::{
    matched_name_is_replaced, second_run_rematches_only_on_match, unmatched_name_is_left_alone,
};
pub use plan::{
    action_spec, after_move, entry_action, entry_spec, next_action, plan_rename, plan_spec, Action,
    ActionView, Entry, Leaf,
};
pub use search::{glob_accepts, prepare_search, search_pattern, search_pattern_spec};
