//! Where the menu puts things, in thousandths of the drawable height -- or of its width, where
//! a constant says so -- so the screens scale with the window. The renderer divides by a
//! thousand; the facts that keep the screens from running into themselves are proved here.

use vstd::prelude::*;

verus! {

/// Top of the heading's line box, and its glyph size.
pub const TITLE_Y: i32 = 140;
pub const TITLE_SIZE: i32 = 110;

/// The title screen's left margin, in thousandths of the WIDTH: the name, the options and the
/// marker hang off it.
pub const POSTER_LEFT: i32 = 105;
/// Top of the poster name's line box and its glyph size.
pub const POSTER_TITLE_Y: i32 = 263;
pub const POSTER_TITLE_SIZE: i32 = 126;
/// Top of the title screen's first option, the step between them, and their glyph size.
pub const POSTER_LIST_Y: i32 = 505;
pub const POSTER_LINE_H: i32 = 63;
pub const POSTER_ITEM_SIZE: i32 = 48;
/// EXIT, alone in the bottom-right corner.
pub const POSTER_EXIT_Y: i32 = 925;
/// Gap between the marker and the row it points at, in thousandths of the width.
pub const MARKER_GAP: i32 = 18;

/// Top of the first option row, the distance between rows, and the option glyph size.
pub const LIST_Y: i32 = 620;
pub const LINE_H: i32 = 65;
pub const ITEM_SIZE: i32 = 52;
/// The smaller rows of the credits and the level list.
pub const SMALL_SIZE: i32 = 34;
pub const SMALL_LINE_H: i32 = 42;
/// Sub-screens start their list higher so longer lists fit.
pub const SUB_LIST_Y: i32 = 360;
/// Level-select shows this many rows around the selection.
pub const LEVEL_WINDOW: usize = 10;

/// The footer hint line, its glyph size, and its inset in thousandths of the width.
pub const HINT_Y: i32 = 940;
pub const HINT_SIZE: i32 = 22;
pub const HINT_MARGIN: i32 = 40;
/// Half the gap between a value row's label and its value, in thousandths of the width.
pub const VALUE_GUTTER: i32 = 12;

/// The key map's three columns -- action, keyboard, gamepad -- in thousandths of the width.
pub const KEYMAP_COL_ACTION: i32 = 100;
pub const KEYMAP_COL_KEYS: i32 = 420;
pub const KEYMAP_COL_PAD: i32 = 680;
/// The key map's own top, line height and text size: it is the longest list on any screen.
pub const KEYMAP_Y: i32 = 305;
pub const KEYMAP_LINE_H: i32 = 35;
pub const KEYMAP_SIZE: i32 = 30;
/// Rows in the key map.
pub const KEYMAP_ROWS: i32 = 14;

/// Where the credits screen's BACK row sits: the credits roll, so nothing above it is fixed.
pub const CREDITS_BACK_Y: i32 = 830;
/// The band the credits scroll through, and how far from each end a line is faded.
pub const ROLL_TOP: i32 = 270;
pub const ROLL_BOTTOM: i32 = 780;
pub const ROLL_FADE: i32 = 90;

/// Top of the key map's BACK row: eight tenths of a line under the last row.
pub open spec fn keymap_back_y() -> int {
    KEYMAP_Y + KEYMAP_ROWS * KEYMAP_LINE_H + KEYMAP_LINE_H * 8 / 10
}

/// Top of the key map's column headings: a line and four tenths over the first row.
pub open spec fn keymap_head_y() -> int {
    KEYMAP_Y - KEYMAP_LINE_H * 14 / 10
}

/// The credits roll has no row budget, but it stays between the heading and the BACK row,
/// BACK clears the footer, the band is more than four lines deep, and its two fades fit in
/// it with a stretch at full brightness between them.
pub proof fn lemma_the_roll_stays_between_the_heading_and_the_back_row()
    ensures
        TITLE_Y + TITLE_SIZE < ROLL_TOP,
        ROLL_BOTTOM < CREDITS_BACK_Y,
        CREDITS_BACK_Y + ITEM_SIZE + SMALL_LINE_H < HINT_Y,
        ROLL_BOTTOM - ROLL_TOP > 4 * SMALL_LINE_H,
        2 * ROLL_FADE < ROLL_BOTTOM - ROLL_TOP,
{
}

/// The key map's BACK row, glyph box and all, stays above the footer hints; its column
/// headings stay below the heading; and its rows are leaded, not overlapping.
pub proof fn lemma_the_key_map_fits_between_the_heading_and_the_footer()
    ensures
        keymap_back_y() + ITEM_SIZE + HINT_SIZE < HINT_Y,
        TITLE_Y + TITLE_SIZE < keymap_head_y(),
        KEYMAP_SIZE < KEYMAP_LINE_H,
{
}

} // verus!
