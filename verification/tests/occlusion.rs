use daydreams::game_header::{GH_MAX_PORTALS, GH_MAX_RECURSION};
use daydreams::occlusion::{push, Occlusion, SlotPolicy, ROOT};

#[test]
fn paths_name_each_chain_uniquely() {
    let a = push(ROOT, 2);
    let b = push(a, 0);
    let c = push(push(ROOT, 0), 2);
    assert_ne!(a, ROOT);
    assert_ne!(a, b);
    assert_ne!(b, c, "[2, 0] and [0, 2] are different views");
    assert_ne!(push(ROOT, 0), ROOT);
    assert_ne!(push(push(ROOT, 0), 0), push(ROOT, 0));
    let mut deep = ROOT;
    for _ in 0..GH_MAX_RECURSION - 1 {
        deep = push(deep, GH_MAX_PORTALS - 1);
    }
    assert!(deep > 0);
}

#[test]
fn never_issued_is_visible() {
    assert!(SlotPolicy::decide(10, None, false, 0));
    assert!(SlotPolicy::decide(10, None, true, 0));
}

#[test]
fn zero_samples_from_last_frame_hides() {
    assert!(!SlotPolicy::decide(10, Some(9), true, 0));
    assert!(SlotPolicy::decide(10, Some(9), true, 1));
    assert!(SlotPolicy::decide(10, Some(9), true, 4096));
}

#[test]
fn stale_results_are_visible() {
    assert!(SlotPolicy::decide(10, Some(8), true, 0));
    assert!(SlotPolicy::decide(10, Some(1), true, 0));
    assert!(SlotPolicy::decide(10, Some(10), true, 0));
    assert!(SlotPolicy::decide(10, Some(11), true, 0));
}

#[test]
fn unavailable_result_is_visible() {
    assert!(SlotPolicy::decide(10, Some(9), false, 0));
}

#[test]
fn a_path_is_five_bits_per_link() {
    assert_eq!(push(ROOT, 0), 1);
    assert_eq!(push(ROOT, 15), 16);
    assert_eq!(push(push(ROOT, 2), 0), (3 << 5) | 1);
    assert_eq!(push(push(push(ROOT, 1), 2), 3), (((2 << 5) | 3) << 5) | 4);
}

#[test]
fn a_slot_judges_the_frame_it_was_issued_on() {
    let mut occ = Occlusion::new();
    // Frame 0: nothing asked yet, so draw, and issue the query.
    assert_eq!(occ.pending_result(ROOT, 3, 5), None);
    assert!(occ.visible(ROOT, 3, None));
    let (slot, fresh) = occ.begin(ROOT, 3);
    assert!(fresh, "a new slot needs a query object");
    assert_eq!(occ.slot_count(), 1);
    occ.next_frame();
    // Frame 1: last frame's query is the one to read; zero samples hide.
    assert_eq!(occ.pending_result(ROOT, 3, 5), Some(slot));
    assert!(!occ.visible(ROOT, 3, Some((true, 0))));
    assert!(occ.visible(ROOT, 3, Some((true, 7))));
    assert!(occ.visible(ROOT, 3, Some((false, 0))), "not back yet: draw");
    // Two frames on, the stored result is stale and nothing is read.
    occ.next_frame();
    assert_eq!(occ.pending_result(ROOT, 3, 5), None);
    assert!(occ.visible(ROOT, 3, None));
    // Re-issuing reuses the slot.
    let (again, fresh) = occ.begin(ROOT, 3);
    assert_eq!(again, slot);
    assert!(!fresh);
}

#[test]
fn a_change_in_portal_count_drops_every_result() {
    let mut occ = Occlusion::new();
    assert_eq!(occ.pending_result(ROOT, 0, 4), None);
    let _ = occ.begin(ROOT, 0);
    occ.next_frame();
    assert_eq!(occ.pending_result(ROOT, 0, 5), None, "the indices mean something else now");
    occ.next_frame();
    let _ = occ.begin(ROOT, 0);
    occ.next_frame();
    assert!(occ.pending_result(ROOT, 0, 5).is_some());
    occ.reset();
    assert_eq!(occ.pending_result(ROOT, 0, 5), None);
}

#[test]
fn the_largest_stamp_is_no_frame_before_anything() {
    assert!(SlotPolicy::decide(u64::MAX, Some(u64::MAX), true, 0));
    assert!(SlotPolicy::decide(0, Some(u64::MAX), true, 0));
    assert!(!SlotPolicy::decide(u64::MAX, Some(u64::MAX - 1), true, 0));
}

#[test]
fn a_new_portal_count_draws_every_portal_until_begun() {
    let mut o = Occlusion::new();
    o.pending_result(ROOT, 0, 3);
    o.begin(ROOT, 0);
    o.begin(ROOT, 1);
    o.next_frame();
    // Last frame's zero-sample result hides, while the count stands.
    assert_eq!(o.pending_result(ROOT, 0, 3), Some(0));
    assert!(!o.visible(ROOT, 0, Some((true, 0))));
    // A new count: every portal is drawn, whatever the driver says ...
    assert_eq!(o.pending_result(ROOT, 1, 4), None);
    assert!(o.visible(ROOT, 1, Some((true, 0))));
    assert!(o.visible(ROOT, 0, Some((true, 0))));
    o.next_frame();
    assert!(o.visible(ROOT, 0, Some((true, 0))));
    // ... until it is asked about again, and that answer is a frame old.
    o.begin(ROOT, 0);
    o.next_frame();
    assert_eq!(o.pending_result(ROOT, 0, 4), Some(0));
    assert!(!o.visible(ROOT, 0, Some((true, 0))));
    assert!(o.visible(ROOT, 1, Some((true, 0))));
}
