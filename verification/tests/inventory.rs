use daydreams::audio::Sfx;
use daydreams::inventory::{
    fire, sfx, take_event, Event, EventLatch, InvKey, Inventory, CAPACITY, EMPTY_HINT,
    FULL_HINT, PENDING_FRAMES, REFUSED_HINT,
};

#[test]
fn every_event_has_its_own_sound() {
    let all = [Event::Stowed, Event::Retrieved, Event::Dropped, Event::Refused];
    assert_eq!(sfx(Event::Stowed), Sfx::Stow);
    assert_eq!(sfx(Event::Retrieved), Sfx::Retrieve);
    assert_eq!(sfx(Event::Dropped), Sfx::Drop);
    assert_eq!(sfx(Event::Refused), Sfx::Refuse);
    let mut sounds: Vec<Sfx> = all.iter().map(|&e| sfx(e)).collect();
    sounds.dedup();
    assert_eq!(sounds.len(), all.len());
}

#[test]
fn the_event_is_read_once_and_the_latest_stands() {
    let mut l = EventLatch::new();
    assert_eq!(take_event(&mut l), None);
    fire(&mut l, Event::Stowed);
    fire(&mut l, Event::Dropped);
    assert_eq!(take_event(&mut l), Some(Event::Dropped));
    assert_eq!(take_event(&mut l), None);
}

#[test]
fn whole_notches_move_the_selection_and_wrap() {
    let mut inv: Inventory<u32> = Inventory::new();
    inv.scroll_notches(-1);
    assert_eq!(inv.selected(), 1, "toward you is the next slot");
    inv.scroll_notches(1);
    assert_eq!(inv.selected(), 0);
    inv.scroll_notches(1);
    assert_eq!(inv.selected(), CAPACITY - 1, "wraps at both ends");
    inv.scroll_notches(-1000);
    assert_eq!(inv.selected(), CAPACITY - 1, "a flick is at most one turn of the row");
    inv.scroll_notches(3);
    assert_eq!(inv.selected(), 2);
}

#[test]
fn stowing_fills_the_first_free_slot_and_selects_it() {
    let mut l = EventLatch::new();
    let mut inv: Inventory<u32> = Inventory::new();
    inv.scroll_notches(-3);
    assert_eq!(inv.stow(&mut l, 7, "APPLE", true), Ok(0));
    assert_eq!(inv.selected(), 0, "a second F is an undo");
    assert_eq!(take_event(&mut l), Some(Event::Stowed));
    assert_eq!(inv.stow(&mut l, 8, "MUG", true), Ok(1));
    let labels = inv.labels();
    assert_eq!(labels[0], Some("APPLE"));
    assert_eq!(labels[1], Some("MUG"));
    assert!(labels[2..].iter().all(Option::is_none));
    assert_eq!(inv.selected_item(), Some(&8));
}

#[test]
fn a_full_inventory_and_a_refusing_object_are_handed_back() {
    let mut l = EventLatch::new();
    let mut inv: Inventory<u32> = Inventory::new();
    assert_eq!(inv.stow(&mut l, 1, "SOFA", false), Err(1));
    assert_eq!(inv.notice(), Some(REFUSED_HINT));
    assert_eq!(take_event(&mut l), Some(Event::Refused));
    for k in 0..CAPACITY {
        assert_eq!(inv.stow(&mut l, k as u32, "THING", true), Ok(k));
    }
    assert_eq!(inv.notice(), None, "a stow clears the hint line");
    assert_eq!(inv.stow(&mut l, 99, "SEVENTH", true), Err(99));
    assert_eq!(inv.notice(), Some(FULL_HINT));
    inv.clear_notice();
    assert_eq!(inv.notice(), None);
}

#[test]
fn an_empty_slot_refuses_a_retrieve_and_a_drop() {
    let mut l = EventLatch::new();
    let mut inv: Inventory<u32> = Inventory::new();
    inv.retrieve(&mut l, true);
    assert_eq!(take_event(&mut l), Some(Event::Refused));
    assert_eq!(inv.notice(), Some(EMPTY_HINT));
    assert!(inv.drop_selected(&mut l, true).is_none());
    assert_eq!(take_event(&mut l), Some(Event::Refused));
}

#[test]
fn a_retrieve_keeps_the_item_until_its_spawn_lands() {
    let mut l = EventLatch::new();
    let mut inv: Inventory<u32> = Inventory::new();
    assert_eq!(inv.stow(&mut l, 5, "KEY", true), Ok(0));
    inv.retrieve(&mut l, true);
    assert_eq!(take_event(&mut l), Some(Event::Retrieved));
    assert_eq!(inv.pending_item(), Some(&5));
    assert_eq!(inv.labels()[0], Some("KEY"), "still in its slot while in flight");
    assert!(inv.keys(true, true, false).is_empty(), "the retrieve owns the hand");
    assert!(inv.resolve_pending(false).is_none());
    let landed = inv.resolve_pending(true).expect("the spawn landed");
    assert_eq!((landed.item, landed.label), (5, "KEY"));
    assert_eq!(inv.labels()[0], None);
    assert_eq!(inv.pending_item(), None);
}

#[test]
fn a_retrieve_that_never_lands_leaves_the_item_in_its_slot() {
    let mut l = EventLatch::new();
    let mut inv: Inventory<u32> = Inventory::new();
    let _ = inv.stow(&mut l, 5, "KEY", true);
    inv.retrieve(&mut l, true);
    for _ in 0..=PENDING_FRAMES {
        assert!(inv.resolve_pending(false).is_none());
    }
    assert_eq!(inv.pending_item(), None, "given up");
    assert_eq!(inv.labels()[0], Some("KEY"));
    assert_eq!(inv.keys(true, false, false), vec![InvKey::Retrieve]);
}

#[test]
fn a_drop_empties_the_slot_at_once() {
    let mut l = EventLatch::new();
    let mut inv: Inventory<u32> = Inventory::new();
    let _ = inv.stow(&mut l, 3, "CUP", true);
    assert!(inv.drop_selected(&mut l, false).is_none(), "nowhere to put it: nothing happens");
    assert_eq!(inv.labels()[0], Some("CUP"));
    let dropped = inv.drop_selected(&mut l, true).expect("placed");
    assert_eq!(dropped.item, 3);
    assert_eq!(take_event(&mut l), Some(Event::Dropped));
    assert_eq!(inv.labels()[0], None);
}

#[test]
fn clearing_empties_the_slots_and_hands_back_what_they_held() {
    let mut l = EventLatch::new();
    let mut inv: Inventory<u32> = Inventory::new();
    let _ = inv.stow(&mut l, 1, "A", true);
    let _ = inv.stow(&mut l, 2, "B", true);
    inv.retrieve(&mut l, true);
    let items = inv.clear();
    assert_eq!(items.iter().map(|s| s.item).collect::<Vec<_>>(), vec![1, 2]);
    assert!(inv.labels().iter().all(Option::is_none));
    assert_eq!(inv.selected(), 0);
    assert_eq!(inv.pending_item(), None, "the retrieve in flight is withdrawn");
}

#[test]
fn the_keys_fire_stow_or_retrieve_then_drop() {
    let inv: Inventory<u32> = Inventory::new();
    assert_eq!(inv.keys(true, true, true), vec![InvKey::Stow, InvKey::Drop]);
    assert_eq!(inv.keys(true, false, false), vec![InvKey::Retrieve]);
    assert_eq!(inv.keys(false, true, false), vec![InvKey::Drop]);
    assert!(inv.keys(false, false, true).is_empty());
}

/// The renderer's side of the wheel: fractional notches add up until they make a whole one.
struct Wheel {
    pending: f32,
}

impl Wheel {
    fn scroll(&mut self, inv: &mut Inventory<u32>, wheel: f32) {
        if !wheel.is_finite() {
            return;
        }
        self.pending += wheel;
        let steps = self.pending.trunc();
        if steps == 0.0 {
            return;
        }
        self.pending -= steps;
        inv.scroll_notches(steps.clamp(-6.0, 6.0) as i32);
    }
}

#[test]
fn the_wheel_wraps_and_spends_whole_notches_only() {
    let mut wheel = Wheel { pending: 0.0 };
    let mut inv: Inventory<u32> = Inventory::new();
    wheel.scroll(&mut inv, -1.0);
    assert_eq!(inv.selected(), 1, "toward you is the next slot");
    wheel.scroll(&mut inv, 1.0);
    assert_eq!(inv.selected(), 0);
    wheel.scroll(&mut inv, 1.0);
    assert_eq!(inv.selected(), CAPACITY - 1, "wraps at both ends");
    let mut inv: Inventory<u32> = Inventory::new();
    for _ in 0..3 {
        wheel.scroll(&mut inv, -0.3);
        assert_eq!(inv.selected(), 0);
    }
    wheel.scroll(&mut inv, -0.3);
    assert_eq!(inv.selected(), 1);
    wheel.scroll(&mut inv, f32::NAN);
    assert_eq!(inv.selected(), 1, "a NaN delta is ignored");
}

#[test]
fn a_stow_and_a_drop_in_one_frame_keep_the_item() {
    let mut l = EventLatch::new();
    let mut inv: Inventory<u32> = Inventory::new();
    let (back, landed, dropped) = inv.frame(&mut l, 0, true, true, Some((4, "BOOK", true)), false, false, true);
    assert_eq!(back, None, "stowed, not handed back");
    assert!(landed.is_none());
    let dropped = dropped.expect("the drop takes what was just stowed");
    assert_eq!((dropped.item, dropped.label), (4, "BOOK"));
    assert!(inv.labels().iter().all(Option::is_none));
}

#[test]
fn a_frame_with_a_retrieve_in_flight_leaves_the_hand_alone() {
    let mut l = EventLatch::new();
    let mut inv: Inventory<u32> = Inventory::new();
    let _ = inv.frame(&mut l, 0, true, false, Some((1, "CUP", true)), false, false, false);
    let _ = inv.frame(&mut l, 0, true, false, None, false, true, false);
    assert_eq!(inv.pending_item(), Some(&1));
    let (back, landed, dropped) = inv.frame(&mut l, 0, true, true, Some((2, "MUG", true)), false, true, true);
    assert_eq!(back, Some(2), "the keys wait while a retrieve owns the hand");
    assert!(landed.is_none() && dropped.is_none());
    let (_, landed, _) = inv.frame(&mut l, 0, false, false, None, true, false, false);
    assert_eq!(landed.map(|s| s.item), Some(1));
    let (back, _, _) = inv.frame(&mut l, 0, true, false, Some((3, "SOFA", false)), false, false, false);
    assert_eq!(back, Some(3), "what refuses to be stowed stays in the hand");
}

/// A frame of `F` alone.
fn press_f(inv: &mut Inventory<u32>, l: &mut EventLatch, held: Option<(u32, &'static str, bool)>, placed: bool) -> Option<u32> {
    inv.frame(l, 0, true, false, held, false, placed, false).0
}

#[test]
fn stowing_empties_the_hand_and_keeps_the_object() {
    let mut l = EventLatch::new();
    let mut inv: Inventory<u32> = Inventory::new();
    let back = press_f(&mut inv, &mut l, Some((7, "APPLE", true)), false);
    assert!(back.is_none(), "the hand is empty");
    assert_eq!(inv.labels()[0], Some("APPLE"));
    assert_eq!(inv.selected(), 0);
    assert_eq!(take_event(&mut l), Some(Event::Stowed));
    assert_eq!(inv.selected_item(), Some(&7));
}

#[test]
fn a_full_inventory_refuses_the_seventh_gracefully() {
    let mut l = EventLatch::new();
    let mut inv: Inventory<u32> = Inventory::new();
    for i in 0..CAPACITY {
        let back = press_f(&mut inv, &mut l, Some((i as u32, "ITEM", true)), false);
        assert!(back.is_none());
        assert!(inv.labels()[i].is_some());
    }
    take_event(&mut l);
    let back = press_f(&mut inv, &mut l, Some((99, "SEVENTH", true)), false);
    assert_eq!(back, Some(99), "still in hand");
    assert!(inv.labels().iter().all(|s| *s == Some("ITEM")));
    assert_eq!(take_event(&mut l), Some(Event::Refused));
    assert_eq!(inv.notice(), Some(FULL_HINT));
}

#[test]
fn something_that_refuses_to_be_stowed_stays_in_the_hand() {
    let mut l = EventLatch::new();
    let mut inv: Inventory<u32> = Inventory::new();
    let back = press_f(&mut inv, &mut l, Some((3, "WINDOW", false)), false);
    assert_eq!(back, Some(3));
    assert!(inv.labels().iter().all(Option::is_none));
    assert_eq!(take_event(&mut l), Some(Event::Refused));
    assert_eq!(inv.notice(), Some(REFUSED_HINT));
}

#[test]
fn a_retrieve_lands_the_frame_after_the_spawn_and_keeps_the_apparent_size() {
    let mut l = EventLatch::new();
    let mut inv: Inventory<u32> = Inventory::new();
    press_f(&mut inv, &mut l, Some((5, "APPLE", true)), false);
    take_event(&mut l);
    // F again: the spawn is asked for, and the slot still holds the item.
    let back = press_f(&mut inv, &mut l, None, true);
    assert_eq!(take_event(&mut l), Some(Event::Retrieved));
    assert!(back.is_none(), "not in hand until the spawn lands");
    assert_eq!(inv.labels()[0], Some("APPLE"));
    assert_eq!(inv.pending_item(), Some(&5));
    // The spawn lands: the next frame lets go of it, for the hand.
    let (back, landed, dropped) = inv.frame(&mut l, 0, false, false, None, true, false, false);
    assert!(back.is_none() && dropped.is_none());
    assert_eq!(landed.map(|s| (s.item, s.label)), Some((5, "APPLE")));
    assert!(inv.labels()[0].is_none(), "the slot is empty once it is in hand");
    assert_eq!(take_event(&mut l), None, "told once, not twice");
}

#[test]
fn dropping_puts_it_in_the_world_with_gravity_back_on() {
    let mut l = EventLatch::new();
    let mut inv: Inventory<u32> = Inventory::new();
    press_f(&mut inv, &mut l, Some((6, "DIE", true)), false);
    take_event(&mut l);
    let (back, landed, dropped) = inv.frame(&mut l, 0, false, true, None, false, false, true);
    assert_eq!(take_event(&mut l), Some(Event::Dropped));
    assert!(back.is_none(), "a drop never touches the hand");
    assert!(landed.is_none());
    assert_eq!(dropped.map(|s| s.item), Some(6));
    assert!(inv.labels()[0].is_none());
}

#[test]
fn a_stow_and_a_drop_in_one_frame_cannot_destroy_the_item() {
    let mut l = EventLatch::new();
    let mut inv: Inventory<u32> = Inventory::new();
    let (back, landed, dropped) = inv.frame(&mut l, 0, true, true, Some((8, "APPLE", true)), false, false, true);
    let in_world = dropped.iter().filter(|s| s.item == 8).count();
    let in_slot = inv.labels().iter().filter(|s| s.is_some()).count();
    assert_eq!(in_world + in_slot, 1, "the item is somewhere, exactly once");
    assert_eq!(in_world, 1, "G put it down, so it is the world that has it");
    assert!(back.is_none() && landed.is_none(), "and not in the hand");
    assert_eq!(take_event(&mut l), Some(Event::Dropped));
}

#[test]
fn two_stows_before_the_queues_are_applied_cannot_strand_the_item() {
    let mut l = EventLatch::new();
    let mut inv: Inventory<u32> = Inventory::new();
    // Frame N stows; frame N+1 retrieves.
    assert!(press_f(&mut inv, &mut l, Some((9, "APPLE", true)), false).is_none());
    assert!(press_f(&mut inv, &mut l, None, true).is_none());
    assert_eq!(inv.labels()[0], Some("APPLE"), "it never left, and was never doubled");
    // And the retrieve still lands: the next frame hands it over.
    let (_, landed, _) = inv.frame(&mut l, 0, false, false, None, true, false, false);
    assert_eq!(landed.map(|s| s.item), Some(9));
    assert!(inv.labels().iter().all(Option::is_none), "the slot let go once it was in hand");
}

#[test]
fn an_empty_slot_says_so() {
    let mut l = EventLatch::new();
    let mut inv: Inventory<u32> = Inventory::new();
    inv.frame(&mut l, 0, true, false, None, false, false, false);
    assert_eq!(take_event(&mut l), Some(Event::Refused));
    assert_eq!(take_event(&mut l), None);
    assert_eq!(inv.notice(), Some(EMPTY_HINT));
}

#[test]
fn clearing_empties_the_slots_and_withdraws_a_retrieve_in_flight() {
    let mut l = EventLatch::new();
    let mut inv: Inventory<u32> = Inventory::new();
    press_f(&mut inv, &mut l, Some((4, "APPLE", true)), false);
    press_f(&mut inv, &mut l, None, true);
    assert_eq!(inv.labels()[0], Some("APPLE"));
    let items = inv.clear();
    assert_eq!(items.iter().map(|s| s.item).collect::<Vec<_>>(), vec![4]);
    assert!(inv.labels().iter().all(Option::is_none));
    assert_eq!(inv.selected(), 0);
    assert!(inv.pending_item().is_none(), "the retrieve in flight was withdrawn");
    let (_, landed, _) = inv.frame(&mut l, 0, false, false, None, true, false, false);
    assert!(landed.is_none(), "nothing lands in the next scene");
}
