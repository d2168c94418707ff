use daydreams::game_header::GH_FOV;
use daydreams::meadow::TITLE_FOV;

#[test]
fn the_title_lens_is_longer_than_the_playing_one() {
    assert!(TITLE_FOV < GH_FOV);
    assert!(TITLE_FOV > 25);
}
