use daydreams::scissor::{footprint_box, PAD};

#[test]
fn a_quad_across_the_eye_plane_gets_the_whole_framebuffer() {
    assert_eq!(footprint_box(true, 10, 10, 20, 20, 1024, 512), [0, 0, 1024, 512]);
}

#[test]
fn the_box_is_padded_by_two_pixels_a_side() {
    assert_eq!(PAD, 2);
    assert_eq!(footprint_box(false, 100, 50, 140, 90, 1024, 512), [98, 48, 44, 44]);
}

#[test]
fn the_padding_stops_at_the_framebuffer_edges() {
    assert_eq!(footprint_box(false, 0, 1, 1024, 511, 1024, 512), [0, 0, 1024, 512]);
    assert_eq!(footprint_box(false, 1023, 511, 1024, 512, 1024, 512), [1021, 509, 3, 3]);
}

#[test]
fn behind_the_eye_any_framebuffer_is_the_box() {
    assert_eq!(footprint_box(true, -5, 7, -9, 3, i32::MAX, i32::MAX), [0, 0, i32::MAX, i32::MAX]);
}

#[test]
fn only_a_quad_at_the_far_edge_of_the_largest_framebuffer_is_near_overflow() {
    let big = i32::MAX;
    assert_eq!(footprint_box(false, 0, 0, big - PAD, 10, big, 10), [0, 0, big, 10]);
    assert_eq!(footprint_box(false, 100, 4, 200, 8, big, big), [98, 2, 104, 8]);
}
