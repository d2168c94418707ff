use daydreams::settings::{
    adjust_mouse, adjust_pad, apply, clamp, flush, load, mouse_level, muted, pad_level, serialize,
    set_muted, Settings, DEFAULT_LEVEL, LEVELS,
};

#[test]
fn settings_round_trip_through_the_file_format() {
    let mut s = Settings::new();
    adjust_mouse(&mut s, 3);
    adjust_pad(&mut s, -2);
    set_muted(&mut s, true);
    let (m, p) = (mouse_level(&s), pad_level(&s));
    let text = serialize(&s);

    adjust_mouse(&mut s, -99);
    adjust_pad(&mut s, 99);
    set_muted(&mut s, false);
    apply(&mut s, &text);
    assert_eq!((mouse_level(&s), pad_level(&s), muted(&s)), (m, p, true));
}

#[test]
fn malformed_lines_are_skipped_and_levels_clamped() {
    let mut s = Settings::new();
    apply(
        &mut s,
        "# comment\n\nnonsense\nmouse_sensitivity = banana\npad_sensitivity = 900\nmuted = 1\n",
    );
    assert_eq!(mouse_level(&s), DEFAULT_LEVEL, "a bad value should leave the default alone");
    assert_eq!(pad_level(&s), LEVELS, "an out-of-range level should clamp, not stick");
    assert!(muted(&s));
}

#[test]
fn adjust_saturates_at_both_ends() {
    let mut s = Settings::new();
    for _ in 0..LEVELS * 2 {
        adjust_mouse(&mut s, 1);
    }
    assert_eq!(mouse_level(&s), LEVELS);
    for _ in 0..LEVELS * 2 {
        adjust_mouse(&mut s, -1);
    }
    assert_eq!(mouse_level(&s), 1);
}

#[test]
fn flush_is_a_no_op_until_something_changes() {
    let mut s = Settings::new();
    assert_eq!(flush(&mut s), None);
    adjust_pad(&mut s, 1);
    assert!(s.dirty, "a change must mark the settings dirty");
    let written = flush(&mut s).expect("a change is written");
    assert!(written.contains("pad_sensitivity = 6\n"));
    assert_eq!(flush(&mut s), None, "written once, then nothing new");
}

#[test]
fn the_file_format_is_three_keyed_lines_after_a_comment() {
    let mut s = Settings::new();
    adjust_mouse(&mut s, 5);
    adjust_pad(&mut s, -4);
    set_muted(&mut s, true);
    assert_eq!(
        serialize(&s),
        "# DayDreams settings. Sensitivity is a notch from 1 to 10; 5 is the default.\n\
         mouse_sensitivity = 10\n\
         pad_sensitivity = 1\n\
         muted = 1\n"
    );
}

#[test]
fn adjusting_reports_the_new_level_and_marks_the_file_for_writing() {
    let mut s = Settings::new();
    assert_eq!(adjust_mouse(&mut s, 2), 7);
    assert!(s.dirty);
    let _ = flush(&mut s);
    assert_eq!(adjust_mouse(&mut s, 0), 7);
    assert!(s.dirty, "an adjustment is written even when it lands where it was");
    assert_eq!(adjust_pad(&mut s, -100), 1);
    set_muted(&mut s, false);
    assert_eq!(muted(&s), false);
}

#[test]
fn clamp_pulls_any_level_onto_the_ladder() {
    assert_eq!(clamp(-100), 1);
    assert_eq!(clamp(0), 1);
    assert_eq!(clamp(1), 1);
    assert_eq!(clamp(7), 7);
    assert_eq!(clamp(LEVELS), LEVELS);
    assert_eq!(clamp(9999), LEVELS);
}

#[test]
fn a_missing_file_keeps_the_defaults_and_a_loaded_one_is_clean() {
    let mut s = Settings::new();
    load(&mut s, None);
    assert_eq!((mouse_level(&s), pad_level(&s), muted(&s)), (DEFAULT_LEVEL, DEFAULT_LEVEL, false));
    load(&mut s, Some("mouse_sensitivity = 2\n  muted=1  \npad_sensitivity=-3\n"));
    assert_eq!((mouse_level(&s), pad_level(&s), muted(&s)), (2, 1, true));
    assert!(!s.dirty, "what was read is what is on disk");
    load(&mut s, Some("muted = 0\nmuted = 7\n"));
    assert!(!muted(&s), "the last line wins, and only 1 or true mutes");
}

#[test]
fn a_nudge_of_any_size_saturates() {
    let mut s = Settings::new();
    assert_eq!(adjust_mouse(&mut s, i32::MAX), 10);
    assert_eq!(adjust_mouse(&mut s, i32::MIN), 1);
    assert_eq!(adjust_pad(&mut s, i32::MIN), 1);
    assert_eq!(adjust_pad(&mut s, i32::MAX), 10);
    assert!(s.dirty);
}
