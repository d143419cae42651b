//! Option structs passed to binding-level calls, with their builders and
//! their wire-shape conversions.

pub mod buf_delete;
pub mod create_command;
pub mod get_context;
pub mod get_option_value;
pub mod set_highlight;

pub use buf_delete::{BufDeleteOpts, BufDeleteOptsBuilder};
pub use create_command::{CreateCommandOpts, CreateCommandOptsBuilder, KeyDictUserCommand};
pub use get_context::{GetContextOpts, GetContextOptsBuilder, KeyDictContext};
pub use get_option_value::{KeyDictOption, OptionValueOpts, OptionValueOptsBuilder};
pub use set_highlight::{KeyDictHighlight, SetHighlightOpts, SetHighlightOptsBuilder};
