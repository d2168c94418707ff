use daydreams::scenes::{index_of, scene_name, scenes, str_eq, Level, INTRO, SCENE_COUNT, TITLE};

#[test]
fn twenty_two_scenes() {
    assert_eq!(scenes().len(), 22);
    assert_eq!(SCENE_COUNT, 22);
}

#[test]
fn intro_is_the_backrooms() {
    assert_eq!(scenes()[INTRO].name, "Backrooms");
}

#[test]
fn the_title_stands_in_the_sunset_scene() {
    assert_eq!(scenes()[TITLE].name, "Intro");
    assert_ne!(TITLE, INTRO, "the backdrop and the first level are chosen separately");
}

#[test]
fn index_of_finds_every_name_and_nothing_else() {
    for (i, entry) in scenes().iter().enumerate() {
        assert_eq!(index_of(entry.name), Some(i), "{:?}", entry.name);
    }
    assert_eq!(index_of("Intro"), Some(15));
    assert_eq!(index_of(""), None);
    assert_eq!(index_of("Backroom"), None, "a prefix is not a match");
    assert_eq!(index_of("Backrooms "), None, "nor is a longer string");
}

#[test]
fn names_unique_and_present() {
    let all = scenes();
    let mut names: Vec<&str> = all.iter().map(|e| e.name).collect();
    assert!(names.iter().all(|n| !n.is_empty()));
    names.sort_unstable();
    names.dedup();
    assert_eq!(names.len(), all.len(), "two scenes share a name");
}

#[test]
fn every_constructor_builds() {
    for entry in scenes() {
        let _scene = entry.make();
    }
}

#[test]
fn the_room_rings_take_their_room_counts() {
    let all = scenes();
    assert_eq!(all[1].make(), Level::Level2(3));
    assert_eq!(all[2].make(), Level::Level2(6));
    assert_eq!(all[SCENE_COUNT - 1].make(), Level::Level32);
    assert_eq!(scene_name(0), "Tunnels");
    assert_eq!(scene_name(INTRO), "Backrooms");
}

#[test]
fn names_compare_by_every_byte() {
    assert!(str_eq("Meadow", "Meadow"));
    assert!(!str_eq("Meadow", "meadow"));
    assert!(!str_eq("Meadow", "Meadows"));
    assert!(str_eq("", ""));
    assert_eq!(index_of("meadow"), None, "the lookup is case-sensitive");
}
