//! The tray icon group of the general settings: which of its rows show for a display mode.

use vstd::prelude::*;

verus! {

/// What the tray icon draws.
#[derive(Debug, Clone, Copy, PartialEq, Eq, Structural)]
pub enum PanelMode {
    /// One limit, the headline.
    Headline,
    /// Several chosen limits.
    Several,
    /// The icon alone.
    Icon,
}

/// The rows of the tray icon group that show.
#[derive(Debug, Clone, Copy, PartialEq, Eq, Structural)]
pub struct PanelRows {
    /// The mode in force.
    pub mode: PanelMode,
    /// The row that picks the mode.
    pub mode_row: bool,
    /// The row that picks the headline limit.
    pub headline_row: bool,
    /// The row that picks several limits.
    pub limits_row: bool,
    /// The rows of the indicator style and the label.
    pub marks: bool,
}

/// The rows of the tray icon group for the chosen mode. A service that cannot change the
/// mode draws the headline, and offers neither the mode nor the marks; otherwise the mode
/// row shows, the headline or limits row follows the mode, and the marks show unless the icon
/// stands alone.
pub fn panel_rows(chosen: PanelMode, capable: bool) -> (rows: PanelRows)
    ensures
        rows.mode == if capable { chosen } else { PanelMode::Headline },
        rows.mode_row == capable,
        rows.headline_row == (rows.mode == PanelMode::Headline),
        rows.limits_row == (rows.mode == PanelMode::Several),
        rows.marks == (capable && rows.mode != PanelMode::Icon),
{
    let mode = if capable {
        chosen
    } else {
        PanelMode::Headline
    };
    PanelRows {
        mode,
        mode_row: capable,
        headline_row: mode == PanelMode::Headline,
        limits_row: mode == PanelMode::Several,
        marks: capable && mode != PanelMode::Icon,
    }
}

} // verus!
