use vstd::prelude::*;

use crate::Column;

verus! {

/// The name of the app, as its configuration directory is called.
pub const APP_NAME: &'static str = "fx";

/// The default visible columns.
pub const COLUMNS: [Column; 4] = [Column::Name, Column::Type, Column::Size, Column::Created];

/// Rows of the screen that never show list entries: header, prompt line,
/// column titles, separator and the status line.
pub const MARGIN: usize = 8;

/// Rows of context kept visible above and below the caret while scrolling,
/// except near the ends of the list.
pub const PADDING: usize = 2;

} // verus!
