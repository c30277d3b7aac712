//! Formatting core of a directory lister: permission strings, shared column
//! widths, per-entry lines and the order in which entries are listed.

pub mod model;
pub mod perms;
pub mod sizer;
pub mod format;
pub mod lookup;
pub mod listing;

pub use format::{
    draw_headline, draw_headlines, file_perms, file_size, show_file_name, show_group_name,
    show_user_name, single, time_mod,
};
pub use listing::{list, name_matches, name_matches_folded, render_listing, Pass};
pub use lookup::{get_user_name, resolve, resolve_all, time_text_of, ListError};
pub use model::{Cli, ColumnWidths, DisplayOptions, Entry, Fragment, Kind, Row, Style};
pub use perms::{perms, triplet};
pub use sizer::column_widths;
