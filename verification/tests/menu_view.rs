use daydreams::menu::{Screen, OPT_BACK, OPT_CONTROLS, OPT_MOUSE, OPT_MUTE, OPT_PAD};
use daydreams::menu_view::{
    heading, level_row, level_window, marked, option_value, shown_value, shows_back_hint,
};
use daydreams::settings::{adjust_mouse, adjust_pad, Settings};

#[test]
fn each_screen_but_the_title_has_its_heading() {
    assert_eq!(heading(Screen::Title), None);
    assert_eq!(heading(Screen::Pause), Some("PAUSED"));
    assert_eq!(heading(Screen::Options), Some("OPTIONS"));
    assert_eq!(heading(Screen::Controls), Some("CONTROLS"));
    assert_eq!(heading(Screen::Credits), Some("CREDITS"));
    assert_eq!(heading(Screen::Levels), Some("SWITCH LEVEL"));
    assert!(!shows_back_hint(Screen::Title), "back does nothing on the title screen");
    assert!(shows_back_hint(Screen::Pause));
}

#[test]
fn the_selected_row_carries_the_marker() {
    assert_eq!(marked("OPTIONS", true), "> OPTIONS");
    assert_eq!(marked("OPTIONS", false), "OPTIONS");
}

#[test]
fn a_value_at_its_end_loses_that_arrow() {
    let mut st = Settings::new();
    let (v, less, more) = option_value(OPT_MOUSE, &st, false).expect("a value row");
    assert_eq!((v.as_str(), less, more), ("5", true, true));
    assert_eq!(shown_value(&v, true, less, more), "< 5 >");
    assert_eq!(shown_value(&v, false, less, more), "5", "arrows only on the selected row");
    adjust_mouse(&mut st, 99);
    let (v, less, more) = option_value(OPT_MOUSE, &st, false).unwrap();
    assert_eq!(shown_value(&v, true, less, more), "< 10  ");
    adjust_pad(&mut st, -99);
    let (v, less, more) = option_value(OPT_PAD, &st, false).unwrap();
    assert_eq!(shown_value(&v, true, less, more), "  1 >");
    let (v, less, more) = option_value(OPT_MUTE, &st, true).unwrap();
    assert_eq!(shown_value(&v, true, less, more), "< ON >");
    assert_eq!(option_value(OPT_MUTE, &st, false).unwrap().0, "OFF");
    assert!(option_value(OPT_CONTROLS, &st, false).is_none());
    assert!(option_value(OPT_BACK, &st, false).is_none());
}

#[test]
fn the_level_list_numbers_its_rows_from_one() {
    assert_eq!(level_row(0, "Tunnels"), "1. Tunnels");
    assert_eq!(level_row(21, "Open House"), "22. Open House");
}

#[test]
fn the_level_window_shows_ten_around_the_selection() {
    assert_eq!(level_window(0, 22), (0, 10, false, true));
    assert_eq!(level_window(12, 22), (7, 17, true, true));
    assert_eq!(level_window(21, 22), (12, 22, true, false));
    assert_eq!(level_window(3, 4), (0, 4, false, false), "a short list shows whole");
}
