use daydreams::layout::{
    CREDITS_BACK_Y, HINT_SIZE, HINT_Y, ITEM_SIZE, KEYMAP_LINE_H, KEYMAP_ROWS, KEYMAP_SIZE, KEYMAP_Y,
    ROLL_BOTTOM, ROLL_FADE, ROLL_TOP, SMALL_LINE_H, TITLE_SIZE, TITLE_Y,
};
use daydreams::menu::keymap;

#[test]
fn the_roll_stays_between_the_heading_and_the_back_row() {
    assert!(TITLE_Y + TITLE_SIZE < ROLL_TOP);
    assert!(ROLL_BOTTOM < CREDITS_BACK_Y);
    assert!(CREDITS_BACK_Y + ITEM_SIZE + SMALL_LINE_H < HINT_Y);
    assert!(ROLL_BOTTOM - ROLL_TOP > 4 * SMALL_LINE_H);
    assert!(2 * ROLL_FADE < ROLL_BOTTOM - ROLL_TOP);
}

#[test]
fn the_key_map_fits_between_the_heading_and_the_footer() {
    let rows = keymap().len() as i32;
    assert_eq!(rows, KEYMAP_ROWS);
    let back_y = KEYMAP_Y + rows * KEYMAP_LINE_H + KEYMAP_LINE_H * 8 / 10;
    assert!(back_y + ITEM_SIZE + HINT_SIZE < HINT_Y);
    let head_y = KEYMAP_Y - KEYMAP_LINE_H * 14 / 10;
    assert!(TITLE_Y + TITLE_SIZE < head_y);
    assert!(KEYMAP_SIZE < KEYMAP_LINE_H);
}

#[test]
fn the_key_map_back_row_lands_where_the_thousandths_say() {
    assert_eq!(KEYMAP_Y + KEYMAP_ROWS * KEYMAP_LINE_H + KEYMAP_LINE_H * 8 / 10, 823);
    assert_eq!(KEYMAP_Y - KEYMAP_LINE_H * 14 / 10, 256);
}
