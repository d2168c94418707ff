//! The six slots the player carries between levels: what is in each, which one the keys act
//! on, the one retrieve that may be in flight, and the refusals and events the keys make.
//!
//! A slot owns the carried object itself, with the word the HUD prints for it (`T` is the
//! object together with the carry's pin, in whatever form the world keeps them). Stowing puts
//! the object in hand into the first free slot; a retrieve leaves it in its slot for the one
//! frame its spawn takes to land, so a retrieve that never lands leaves the item in the
//! inventory rather than nowhere; a drop empties the slot at once.

use vstd::prelude::*;
use crate::audio::Sfx;

verus! {

/// How many slots the player has.
pub const CAPACITY: usize = 6;
/// Frames a retrieve may wait for its spawn before the item is left in its slot.
pub const PENDING_FRAMES: u32 = 60;

/// Refusals, on the hint line.
pub const FULL_HINT: &'static str = "POCKETS FULL";
pub const REFUSED_HINT: &'static str = "IT WILL NOT FIT";
pub const EMPTY_HINT: &'static str = "THAT SLOT IS EMPTY";

/// What just happened to the inventory, for whoever turns it into a sound.
#[derive(Clone, Copy, PartialEq, Eq, Debug, Structural)]
pub enum Event {
    Stowed,
    Retrieved,
    Dropped,
    Refused,
}

/// The sound each event makes; no two events share one.
pub open spec fn sound_of(e: Event) -> Sfx {
    match e {
        Event::Stowed => Sfx::Stow,
        Event::Retrieved => Sfx::Retrieve,
        Event::Dropped => Sfx::Drop,
        Event::Refused => Sfx::Refuse,
    }
}

/// The sound an event makes.
pub fn sfx(e: Event) -> (r: Sfx)
    ensures
        r == sound_of(e),
{
    match e {
        Event::Stowed => Sfx::Stow,
        Event::Retrieved => Sfx::Retrieve,
        Event::Dropped => Sfx::Drop,
        Event::Refused => Sfx::Refuse,
    }
}

/// Every event has a sound of its own.
pub proof fn lemma_each_event_sounds_its_own(a: Event, b: Event)
    ensures
        sound_of(a) == sound_of(b) <==> a == b,
{
}

/// The event since the last read: the inventory sets it, the engine takes it once per
/// rendered frame.
pub struct EventLatch {
    pub event: Option<Event>,
}

impl EventLatch {
    pub fn new() -> (l: EventLatch)
        ensures
            l.event is None,
    {
        EventLatch { event: None }
    }
}

/// The event since the last call, consumed.
pub fn take_event(l: &mut EventLatch) -> (r: Option<Event>)
    ensures
        r == old(l).event,
        final(l).event is None,
{
    let r = l.event;
    l.event = None;
    r
}

/// Record an event; the latest one stands.
pub fn fire(l: &mut EventLatch, e: Event)
    ensures
        final(l).event == Some(e),
{
    l.event = Some(e);
}

/// One filled slot: the object and the word the HUD prints.
pub struct Slot<T> {
    pub item: T,
    pub label: &'static str,
}

/// A retrieve waiting for its spawn: the slot the object still sits in, and how many frames
/// it has waited.
#[derive(Clone, Copy, PartialEq, Eq, Debug)]
pub struct Pending {
    pub from: usize,
    pub age: u32,
}

/// What the frame's keys do, in order.
#[derive(Clone, Copy, PartialEq, Eq, Debug, Structural)]
pub enum InvKey {
    /// `F` with something in hand.
    Stow,
    /// `F` with an empty hand.
    Retrieve,
    /// `G`.
    Drop,
}

pub struct Inventory<T> {
    slots: Vec<Option<Slot<T>>>,
    selected: usize,
    pending: Option<Pending>,
    /// A refusal, held on the hint line until its time is up.
    notice: Option<&'static str>,
}

/// The first empty slot of `s`, or `None` when all are full.
pub open spec fn first_free<T>(s: Seq<Option<Slot<T>>>) -> Option<int> {
    if exists|k: int| 0 <= k < s.len() && s[k] is None {
        Some(choose|k: int| 0 <= k < s.len() && s[k] is None && forall|j: int| 0 <= j < k ==> s[j] is Some)
    } else {
        None
    }
}

/// What the keys read and change, as a value: the slots, the selection, the retrieve in
/// flight, the refusal on the hint line, and the event waiting in the latch.
pub struct InvState<T> {
    pub slots: Seq<Option<Slot<T>>>,
    pub sel: int,
    pub pending: Option<Pending>,
    pub notice: Option<&'static str>,
    pub event: Option<Event>,
}

/// Whole wheel notches, clamped to one turn of the row.
pub open spec fn clamped_notches(steps: i32) -> int {
    if steps < -(CAPACITY as int) {
        -(CAPACITY as int)
    } else if steps > CAPACITY as int {
        CAPACITY as int
    } else {
        steps as int
    }
}

/// The selection after the wheel: away from the player is the previous slot, wrapping.
pub open spec fn scrolled<T>(s: InvState<T>, steps: i32) -> InvState<T> {
    InvState { sel: (s.sel - clamped_notches(steps)) % (CAPACITY as int), ..s }
}

/// A frame of the retrieve in flight, if any, with the slot it lets go of on landing.
pub open spec fn resolved<T>(s: InvState<T>, arrived: bool) -> (InvState<T>, Option<Slot<T>>) {
    match s.pending {
        None => (s, None),
        Some(p) => if s.slots[p.from as int] is None {
            (InvState { pending: None, ..s }, None)
        } else if arrived {
            (
                InvState { slots: s.slots.update(p.from as int, None), pending: None, ..s },
                s.slots[p.from as int],
            )
        } else {
            (
                InvState {
                    pending: if p.age >= PENDING_FRAMES {
                        None
                    } else {
                        Some(Pending { from: p.from, age: (p.age + 1) as u32 })
                    },
                    ..s
                },
                None,
            )
        },
    }
}

/// A refusal: its reason on the hint line and the refused event.
pub open spec fn refused<T>(s: InvState<T>, text: &'static str) -> InvState<T> {
    InvState { notice: Some(text), event: Some(Event::Refused), ..s }
}

/// `F` with `item` in hand, and what is handed back to the hand (the item, when refused).
pub open spec fn stowed<T>(s: InvState<T>, item: T, label: &'static str, can_stow: bool) -> (
    InvState<T>,
    Option<T>,
) {
    if !can_stow {
        (refused(s, REFUSED_HINT), Some(item))
    } else {
        match first_free(s.slots) {
            None => (refused(s, FULL_HINT), Some(item)),
            Some(k) => (
                InvState {
                    slots: s.slots.update(k, Some(Slot { item, label })),
                    sel: k,
                    notice: None,
                    event: Some(Event::Stowed),
                    ..s
                },
                None,
            ),
        }
    }
}

/// `F` with an empty hand.
pub open spec fn retrieved<T>(s: InvState<T>, placed: bool) -> InvState<T> {
    if s.slots[s.sel] is None {
        refused(s, EMPTY_HINT)
    } else if placed {
        InvState {
            pending: Some(Pending { from: s.sel as usize, age: 0 }),
            notice: None,
            event: Some(Event::Retrieved),
            ..s
        }
    } else {
        s
    }
}

/// `G`, with the slot it put in the world.
pub open spec fn dropped<T>(s: InvState<T>, placed: bool) -> (InvState<T>, Option<Slot<T>>) {
    if s.slots[s.sel] is None {
        (refused(s, EMPTY_HINT), None)
    } else if placed {
        (
            InvState {
                slots: s.slots.update(s.sel, None),
                notice: None,
                event: Some(Event::Dropped),
                ..s
            },
            s.slots[s.sel],
        )
    } else {
        (s, None)
    }
}

/// One whole frame: the wheel, the retrieve in flight, then -- unless a retrieve is still in
/// flight -- `F` (a stow with something in hand, else a retrieve) and then `G`. Its results
/// are the state after the frame, and what goes back to the hand, the slot a landed retrieve
/// let go of, and the slot a drop put in the world.
pub open spec fn frame_of<T>(
    s: InvState<T>,
    notches: i32,
    stow: bool,
    drop: bool,
    held: Option<(T, &'static str, bool)>,
    arrived: bool,
    placed_retrieve: bool,
    placed_drop: bool,
) -> (InvState<T>, (Option<T>, Option<Slot<T>>, Option<Slot<T>>)) {
    let (s1, landed) = resolved(scrolled(s, notches), arrived);
    let in_hand = match held {
        Some(h) => Some(h.0),
        None => None,
    };
    if s1.pending is Some {
        (s1, (in_hand, landed, None))
    } else {
        let (s2, back) = if stow {
            match held {
                Some(h) => stowed(s1, h.0, h.1, h.2),
                None => (retrieved(s1, placed_retrieve), None),
            }
        } else {
            (s1, in_hand)
        };
        let (s3, out) = if drop {
            dropped(s2, placed_drop)
        } else {
            (s2, None)
        };
        (s3, (back, landed, out))
    }
}

impl<T> Inventory<T> {
    /// Six slots, a selection among them, and a pending retrieve that names one.
    pub open spec fn wf(&self) -> bool {
        &&& self.slots().len() == CAPACITY
        &&& 0 <= self.sel() < CAPACITY
        &&& self.pending_retrieve() matches Some(p) ==> p.from < CAPACITY
    }

    pub closed spec fn slots(&self) -> Seq<Option<Slot<T>>> {
        self.slots@
    }

    pub closed spec fn sel(&self) -> int {
        self.selected as int
    }

    pub closed spec fn pending_retrieve(&self) -> Option<Pending> {
        self.pending
    }

    pub closed spec fn notice_text(&self) -> Option<&'static str> {
        self.notice
    }

    /// The inventory as the keys see it, with the latch's `event`.
    pub open spec fn state(&self, event: Option<Event>) -> InvState<T> {
        InvState {
            slots: self.slots(),
            sel: self.sel(),
            pending: self.pending_retrieve(),
            notice: self.notice_text(),
            event,
        }
    }

    /// Empty, the first slot selected, nothing in flight.
    pub fn new() -> (inv: Inventory<T>)
        ensures
            inv.wf(),
            inv.sel() == 0,
            inv.pending_retrieve() is None,
            inv.notice_text() is None,
            forall|k: int| 0 <= k < CAPACITY ==> #[trigger] inv.slots()[k] is None,
    {
        let mut slots: Vec<Option<Slot<T>>> = Vec::new();
        let mut k: usize = 0;
        while k < CAPACITY
            invariant
                0 <= k <= CAPACITY,
                slots@.len() == k,
                forall|j: int| 0 <= j < k ==> #[trigger] slots@[j] is None,
            decreases CAPACITY - k,
        {
            slots.push(None);
            k += 1;
        }
        Inventory { slots, selected: 0, pending: None, notice: None }
    }

    /// Which slot the keys act on.
    pub fn selected(&self) -> (r: usize)
        ensures
            r == self.sel(),
    {
        self.selected
    }

    /// What the HUD prints, in slot order.
    pub fn labels(&self) -> (r: Vec<Option<&'static str>>)
        requires
            self.wf(),
        ensures
            r@.len() == CAPACITY,
            forall|k: int|
                0 <= k < CAPACITY ==> #[trigger] r@[k] == match self.slots()[k] {
                    Some(s) => Some(s.label),
                    None => None,
                },
    {
        let mut r: Vec<Option<&'static str>> = Vec::new();
        let mut k: usize = 0;
        while k < CAPACITY
            invariant
                self.wf(),
                0 <= k <= CAPACITY,
                r@.len() == k,
                forall|j: int|
                    0 <= j < k ==> #[trigger] r@[j] == match self.slots()[j] {
                        Some(s) => Some(s.label),
                        None => None,
                    },
            decreases CAPACITY - k,
        {
            let l = match &self.slots[k] {
                Some(s) => Some(s.label),
                None => None,
            };
            r.push(l);
            k += 1;
        }
        r
    }

    /// The refusal to keep on the hint line, if one stands.
    pub fn notice(&self) -> (r: Option<&'static str>)
        ensures
            r == self.notice_text(),
    {
        self.notice
    }

    /// The refusal's time is up: the hint line is free again.
    pub fn clear_notice(&mut self)
        requires
            old(self).wf(),
        ensures
            final(self).wf(),
            final(self).notice_text() is None,
            final(self).slots() == old(self).slots(),
            final(self).sel() == old(self).sel(),
            final(self).pending_retrieve() == old(self).pending_retrieve(),
    {
        self.notice = None;
    }

    /// The first empty slot, or `None` when all six are full.
    fn free_slot(&self) -> (r: Option<usize>)
        requires
            self.wf(),
        ensures
            r matches Some(k) ==> first_free(self.slots()) == Some(k as int) && k < CAPACITY,
            r is None ==> first_free(self.slots()) is None,
    {
        let mut k: usize = 0;
        while k < CAPACITY
            invariant
                self.wf(),
                0 <= k <= CAPACITY,
                forall|j: int| 0 <= j < k ==> self.slots()[j] is Some,
            decreases CAPACITY - k,
        {
            if self.slots[k].is_none() {
                proof {
                    let c = choose|c: int|
                        0 <= c < self.slots().len() && self.slots()[c] is None && forall|j: int|
                            0 <= j < c ==> self.slots()[j] is Some;
                    assert(c == k as int) by {
                        if c < k {
                        } else if c > k {
                            assert(self.slots()[k as int] is None);
                        }
                    }
                }
                return Some(k);
            }
            k += 1;
        }
        None
    }

    /// Move the selection by whole wheel notches, clamped to one turn of the row: scrolling
    /// away from the player goes to the previous slot, and it wraps at both ends.
    pub fn scroll_notches(&mut self, steps: i32)
        requires
            old(self).wf(),
        ensures
            final(self).wf(),
            final(self).sel() == (old(self).sel() - (if steps < -6 {
                -6
            } else if steps > 6 {
                6
            } else {
                steps as int
            })) % (CAPACITY as int),
            final(self).slots() == old(self).slots(),
            final(self).pending_retrieve() == old(self).pending_retrieve(),
            final(self).notice_text() == old(self).notice_text(),
    {
        let n: i32 = CAPACITY as i32;
        let s: i32 = if steps < -n {
            -n
        } else if steps > n {
            n
        } else {
            steps
        };
        let v: i32 = self.selected as i32 - s;
        let w: i32 = if v < 0 {
            v + n
        } else if v >= n {
            v - n
        } else {
            v
        };
        proof {
            let vi = v as int;
            if vi < 0 {
                vstd::arithmetic::div_mod::lemma_mod_add_multiples_vanish(vi, 6);
                vstd::arithmetic::div_mod::lemma_small_mod((vi + 6) as nat, 6);
            } else if vi >= 6 {
                vstd::arithmetic::div_mod::lemma_mod_add_multiples_vanish(vi - 6, 6);
                vstd::arithmetic::div_mod::lemma_small_mod((vi - 6) as nat, 6);
            } else {
                vstd::arithmetic::div_mod::lemma_small_mod(vi as nat, 6);
            }
        }
        self.selected = w as usize;
    }

    /// Empty every slot and forget everything about them: for the menu actions that mean a
    /// different run. Hands back what the slots held, so a spawn a retrieve in flight asked
    /// for can be withdrawn and nothing lands in the next scene.
    pub fn clear(&mut self) -> (items: Vec<Slot<T>>)
        requires
            old(self).wf(),
        ensures
            final(self).wf(),
            final(self).sel() == 0,
            final(self).pending_retrieve() is None,
            final(self).notice_text() is None,
            forall|k: int| 0 <= k < CAPACITY ==> #[trigger] final(self).slots()[k] is None,
            items@.len() == count_filled(old(self).slots(), CAPACITY as int),
    {
        let mut items: Vec<Slot<T>> = Vec::new();
        let mut k: usize = 0;
        while k < CAPACITY
            invariant
                0 <= k <= CAPACITY,
                self.slots@.len() == CAPACITY,
                forall|j: int| 0 <= j < k ==> #[trigger] self.slots@[j] is None,
                forall|j: int| k <= j < CAPACITY ==> #[trigger] self.slots@[j] == old(self).slots@[j],
                items@.len() == count_filled(old(self).slots@, k as int),
            decreases CAPACITY - k,
        {
            let mut s: Option<Slot<T>> = None;
            std::mem::swap(&mut s, &mut self.slots[k]);
            if let Some(slot) = s {
                items.push(slot);
            }
            k += 1;
        }
        self.selected = 0;
        self.pending = None;
        self.notice = None;
        items
    }

    /// Say why nothing happened.
    pub fn refuse(&mut self, latch: &mut EventLatch, text: &'static str)
        requires
            old(self).wf(),
        ensures
            final(self).wf(),
            final(self).notice_text() == Some(text),
            final(latch).event == Some(Event::Refused),
            final(self).slots() == old(self).slots(),
            final(self).sel() == old(self).sel(),
            final(self).pending_retrieve() == old(self).pending_retrieve(),
    {
        self.notice = Some(text);
        fire(latch, Event::Refused);
    }

    /// Put the object in hand into the first free slot, selecting it so that a second `F` is
    /// an undo. Something that refuses to be stowed, or a full inventory, is refused with its
    /// reason and handed back.
    pub fn stow(&mut self, latch: &mut EventLatch, item: T, label: &'static str, can_stow: bool) -> (r:
        Result<usize, T>)
        requires
            old(self).wf(),
        ensures
            final(self).wf(),
            final(self).pending_retrieve() == old(self).pending_retrieve(),
            !can_stow ==> r == Err::<usize, T>(item) && final(self).slots() == old(self).slots()
                && final(self).sel() == old(self).sel() && final(self).notice_text() == Some(
                REFUSED_HINT,
            ) && final(latch).event == Some(Event::Refused),
            can_stow && first_free(old(self).slots()) is None ==> r == Err::<usize, T>(item)
                && final(self).slots() == old(self).slots() && final(self).sel() == old(self).sel()
                && final(self).notice_text() == Some(FULL_HINT) && final(latch).event == Some(
                Event::Refused,
            ),
            can_stow && first_free(old(self).slots()) is Some ==> ({
                let k = first_free(old(self).slots())->0;
                &&& r == Ok::<usize, T>(k as usize)
                &&& final(self).slots() == old(self).slots().update(
                    k,
                    Some(Slot { item, label }),
                )
                &&& final(self).sel() == k
                &&& final(self).notice_text() is None
                &&& final(latch).event == Some(Event::Stowed)
            }),
    {
        if !can_stow {
            self.refuse(latch, REFUSED_HINT);
            return Err(item);
        }
        match self.free_slot() {
            None => {
                self.refuse(latch, FULL_HINT);
                Err(item)
            },
            Some(k) => {
                self.slots.set(k, Some(Slot { item, label }));
                self.selected = k;
                self.notice = None;
                fire(latch, Event::Stowed);
                Ok(k)
            },
        }
    }

    /// The item in the selected slot, if there is one: what a retrieve or a drop places.
    pub fn selected_item(&self) -> (r: Option<&T>)
        requires
            self.wf(),
        ensures
            match self.slots()[self.sel()] {
                Some(s) => r == Some(&s.item),
                None => r is None,
            },
    {
        match &self.slots[self.selected] {
            Some(s) => Some(&s.item),
            None => None,
        }
    }

    /// `F` with an empty hand: take the selected item into it. An empty slot is refused;
    /// otherwise, once the world has `placed` the object and asked for its spawn, the retrieve
    /// is in flight from that slot, which keeps the item until the spawn lands.
    pub fn retrieve(&mut self, latch: &mut EventLatch, placed: bool)
        requires
            old(self).wf(),
        ensures
            final(self).wf(),
            final(self).slots() == old(self).slots(),
            final(self).sel() == old(self).sel(),
            old(self).slots()[old(self).sel()] is None ==> final(self).notice_text() == Some(
                EMPTY_HINT,
            ) && final(latch).event == Some(Event::Refused) && final(self).pending_retrieve()
                == old(self).pending_retrieve(),
            old(self).slots()[old(self).sel()] is Some && placed ==> final(self).pending_retrieve()
                == Some(Pending { from: old(self).sel() as usize, age: 0 })
                && final(self).notice_text() is None && final(latch).event == Some(
                Event::Retrieved,
            ),
            old(self).slots()[old(self).sel()] is Some && !placed ==> final(self).pending_retrieve()
                == old(self).pending_retrieve() && final(self).notice_text() == old(
                self,
            ).notice_text() && final(latch).event == old(latch).event,
    {
        if self.slots[self.selected].is_none() {
            self.refuse(latch, EMPTY_HINT);
            return ;
        }
        if placed {
            self.pending = Some(Pending { from: self.selected, age: 0 });
            self.notice = None;
            fire(latch, Event::Retrieved);
        }
    }

    /// `G`: put the selected item down in the world without going through the hand. An
    /// empty slot is refused; otherwise, once the world has `placed` it, the slot empties at
    /// once and the item is handed back.
    pub fn drop_selected(&mut self, latch: &mut EventLatch, placed: bool) -> (r: Option<Slot<T>>)
        requires
            old(self).wf(),
        ensures
            final(self).wf(),
            final(self).sel() == old(self).sel(),
            final(self).pending_retrieve() == old(self).pending_retrieve(),
            old(self).slots()[old(self).sel()] is None ==> r is None && final(self).slots() == old(
                self,
            ).slots() && final(self).notice_text() == Some(EMPTY_HINT) && final(latch).event
                == Some(Event::Refused),
            old(self).slots()[old(self).sel()] is Some && placed ==> r == old(self).slots()[old(
                self,
            ).sel()] && final(self).slots() == old(self).slots().update(old(self).sel(), None)
                && final(self).notice_text() is None && final(latch).event == Some(Event::Dropped),
            old(self).slots()[old(self).sel()] is Some && !placed ==> r is None && final(self).slots()
                == old(self).slots() && final(self).notice_text() == old(self).notice_text()
                && final(latch).event == old(latch).event,
    {
        if self.slots[self.selected].is_none() {
            self.refuse(latch, EMPTY_HINT);
            return None;
        }
        if !placed {
            return None;
        }
        let mut s: Option<Slot<T>> = None;
        let k = self.selected;
        std::mem::swap(&mut s, &mut self.slots[k]);
        self.notice = None;
        fire(latch, Event::Dropped);
        s
    }

    /// The item a retrieve in flight is waiting on, when one is: what the world looks for
    /// among its objects.
    pub fn pending_item(&self) -> (r: Option<&T>)
        requires
            self.wf(),
        ensures
            match self.pending_retrieve() {
                Some(p) => match self.slots()[p.from as int] {
                    Some(s) => r == Some(&s.item),
                    None => r is None,
                },
                None => r is None,
            },
    {
        match self.pending {
            Some(p) => match &self.slots[p.from] {
                Some(s) => Some(&s.item),
                None => None,
            },
            None => None,
        }
    }

    /// A frame of a retrieve in flight: when its object has `arrived` in the world the slot
    /// lets go of it (handed back, for the hand to pin) and the retrieve is over; otherwise
    /// it waits, and gives up -- leaving the item in its slot -- after [`PENDING_FRAMES`].
    pub fn resolve_pending(&mut self, arrived: bool) -> (r: Option<Slot<T>>)
        requires
            old(self).wf(),
        ensures
            final(self).wf(),
            final(self).sel() == old(self).sel(),
            final(self).notice_text() == old(self).notice_text(),
            match old(self).pending_retrieve() {
                None => r is None && final(self).slots() == old(self).slots()
                    && final(self).pending_retrieve() is None,
                Some(p) => if old(self).slots()[p.from as int] is None {
                    r is None && final(self).slots() == old(self).slots()
                        && final(self).pending_retrieve() is None
                } else if arrived {
                    r == old(self).slots()[p.from as int] && final(self).slots() == old(
                        self,
                    ).slots().update(p.from as int, None) && final(self).pending_retrieve() is None
                } else {
                    r is None && final(self).slots() == old(self).slots()
                        && final(self).pending_retrieve() == if p.age >= PENDING_FRAMES {
                        None
                    } else {
                        Some(Pending { from: p.from, age: (p.age + 1) as u32 })
                    }
                },
            },
    {
        let p = match self.pending {
            Some(p) => p,
            None => return None,
        };
        if self.slots[p.from].is_none() {
            self.pending = None;
            return None;
        }
        if !arrived {
            if p.age >= PENDING_FRAMES {
                self.pending = None;
            } else {
                self.pending = Some(Pending { from: p.from, age: p.age + 1 });
            }
            return None;
        }
        let mut s: Option<Slot<T>> = None;
        std::mem::swap(&mut s, &mut self.slots[p.from]);
        self.pending = None;
        s
    }

    /// One frame of the inventory: the wheel's whole `notches`, then a retrieve in flight
    /// landing (`arrived`, its object now in the world), then -- unless a retrieve is still in
    /// flight -- `F` (`stow`) and `G` (`drop`). `held` is what is in the hand, with its label
    /// and whether it may be stowed; `placed_retrieve` and `placed_drop` say whether the world
    /// placed the object a retrieve or a drop asked for. Returns what goes back to the hand
    /// (the held item, when it was not stowed), the slot a landed retrieve lets go of, and the
    /// slot a drop put in the world.
    ///
    /// The frame is exactly [`frame_of`], the event latch included. Nothing is lost and
    /// nothing is made: the items in the slots and the hand before the frame are exactly
    /// those in the slots and the three results after it.
    pub fn frame(
        &mut self,
        latch: &mut EventLatch,
        notches: i32,
        stow: bool,
        drop: bool,
        held: Option<(T, &'static str, bool)>,
        arrived: bool,
        placed_retrieve: bool,
        placed_drop: bool,
    ) -> (r: (Option<T>, Option<Slot<T>>, Option<Slot<T>>))
        requires
            old(self).wf(),
        ensures
            final(self).wf(),
            ({
                let (s, out) = frame_of(
                    old(self).state(old(latch).event),
                    notches,
                    stow,
                    drop,
                    held,
                    arrived,
                    placed_retrieve,
                    placed_drop,
                );
                final(self).state(final(latch).event) == s && r == out
            }),
            count_filled(old(self).slots(), CAPACITY as int) + some_count(held) == count_filled(
                final(self).slots(),
                CAPACITY as int,
            ) + some_count(r.0) + some_count(r.1) + some_count(r.2),
    {
        self.scroll_notches(notches);
        let ghost s0 = self.slots();
        let landed = self.resolve_pending(arrived);
        proof {
            if landed is Some {
                let k = old(self).pending_retrieve()->0.from as int;
                lemma_items_are_conserved(s0, k, landed->0);
            }
        }
        let ghost s1 = self.slots();
        let mut back: Option<T> = None;
        let mut dropped: Option<Slot<T>> = None;
        if self.pending.is_some() {
            back = match held {
                Some(h) => Some(h.0),
                None => None,
            };
            return (back, landed, dropped);
        }
        if stow {
            match held {
                Some(h) => {
                    let (item, label, can) = h;
                    match self.stow(latch, item, label, can) {
                        Ok(k) => {
                            proof {
                                lemma_items_are_conserved(s1, k as int, self.slots()[k as int]->0);
                            }
                        },
                        Err(it) => {
                            back = Some(it);
                        },
                    }
                },
                None => {
                    self.retrieve(latch, placed_retrieve);
                },
            }
        } else {
            back = match held {
                Some(h) => Some(h.0),
                None => None,
            };
        }
        let ghost s2 = self.slots();
        if drop {
            dropped = self.drop_selected(latch, placed_drop);
            proof {
                if dropped is Some {
                    lemma_items_are_conserved(s2, self.sel(), dropped->0);
                }
            }
        }
        (back, landed, dropped)
    }

    /// The keys a frame's `F` and `G` fire, in order: nothing while a retrieve is in flight
    /// (it owns the hand and its slot), else `F` stows what is in hand or takes the selected
    /// item into an empty one, then `G` drops.
    pub fn keys(&self, stow: bool, drop: bool, holding: bool) -> (r: Vec<InvKey>)
        ensures
            r@ == if self.pending_retrieve() is Some {
                Seq::<InvKey>::empty()
            } else {
                (if stow {
                    seq![
                        if holding {
                            InvKey::Stow
                        } else {
                            InvKey::Retrieve
                        },
                    ]
                } else {
                    Seq::<InvKey>::empty()
                }) + (if drop {
                    seq![InvKey::Drop]
                } else {
                    Seq::<InvKey>::empty()
                })
            },
    {
        let mut r: Vec<InvKey> = Vec::new();
        if self.pending.is_some() {
            assert(r@ =~= Seq::<InvKey>::empty());
            return r;
        }
        if stow {
            r.push(
                if holding {
                    InvKey::Stow
                } else {
                    InvKey::Retrieve
                },
            );
        }
        if drop {
            r.push(InvKey::Drop);
        }
        assert(r@ =~= (if stow {
            seq![
                if holding {
                    InvKey::Stow
                } else {
                    InvKey::Retrieve
                },
            ]
        } else {
            Seq::<InvKey>::empty()
        }) + (if drop {
            seq![InvKey::Drop]
        } else {
            Seq::<InvKey>::empty()
        }));
        r
    }
}

/// One for a present value, none for an absent one.
pub open spec fn some_count<A>(o: Option<A>) -> int {
    if o is Some {
        1
    } else {
        0
    }
}

/// How many of the first `k` slots are filled.
pub open spec fn count_filled<T>(s: Seq<Option<Slot<T>>>, k: int) -> nat
    decreases k,
{
    if k <= 0 {
        0
    } else {
        count_filled(s, k - 1) + if s[k - 1] is Some {
            1nat
        } else {
            0nat
        }
    }
}

/// How many of the first `k` slots are filled is at most `k`, and exactly `k` when every one
/// of them is.
proof fn lemma_count_filled_bound<T>(s: Seq<Option<Slot<T>>>, k: int)
    requires
        0 <= k <= s.len(),
    ensures
        count_filled(s, k) <= k,
        count_filled(s, k) == k <==> forall|j: int| 0 <= j < k ==> s[j] is Some,
    decreases k,
{
    if k > 0 {
        lemma_count_filled_bound(s, k - 1);
    }
}

/// Changing slot `i` changes the count of the first `k` only if `i` is among them, and by
/// exactly what the change did to it.
proof fn lemma_count_filled_update<T>(s: Seq<Option<Slot<T>>>, i: int, v: Option<Slot<T>>, k: int)
    requires
        0 <= i < s.len(),
        0 <= k <= s.len(),
    ensures
        count_filled(s.update(i, v), k) == count_filled(s, k) + if i < k {
            (if v is Some {
                1int
            } else {
                0
            }) - (if s[i] is Some {
                1int
            } else {
                0
            })
        } else {
            0
        },
    decreases k,
{
    if k > 0 {
        lemma_count_filled_update(s, i, v, k - 1);
    }
}

/// The first free slot is free and every slot before it is filled; there is none exactly
/// when every slot is filled.
pub proof fn lemma_first_free<T>(s: Seq<Option<Slot<T>>>)
    ensures
        first_free(s) matches Some(k) ==> 0 <= k < s.len() && s[k] is None && forall|j: int|
            0 <= j < k ==> s[j] is Some,
        first_free(s) is None <==> forall|j: int| 0 <= j < s.len() ==> s[j] is Some,
{
    if exists|k: int| 0 <= k < s.len() && s[k] is None {
        let w = choose|k: int| 0 <= k < s.len() && s[k] is None;
        let m = least_free(s, w);
        assert(0 <= m < s.len() && s[m] is None && forall|j: int| 0 <= j < m ==> s[j] is Some);
    }
}

/// A free slot at or before `w`, with every slot before it filled.
proof fn least_free<T>(s: Seq<Option<Slot<T>>>, w: int) -> (m: int)
    requires
        0 <= w < s.len(),
        s[w] is None,
    ensures
        0 <= m <= w,
        s[m] is None,
        forall|j: int| 0 <= j < m ==> s[j] is Some,
    decreases w,
{
    if exists|j: int| 0 <= j < w && s[j] is None {
        let j = choose|j: int| 0 <= j < w && s[j] is None;
        least_free(s, j)
    } else {
        w
    }
}

/// The pockets are full exactly when all six slots hold something: a stow is refused as full
/// then, and only then.
pub proof fn lemma_full_means_six_items<T>(s: Seq<Option<Slot<T>>>)
    requires
        s.len() == CAPACITY,
    ensures
        first_free(s) is None <==> count_filled(s, CAPACITY as int) == CAPACITY,
{
    lemma_count_filled_bound(s, CAPACITY as int);
}

/// Nothing is lost and nothing is made: putting an item into an empty slot holds one more
/// item, and emptying a filled slot -- which hands its item back -- holds one fewer.
pub proof fn lemma_items_are_conserved<T>(s: Seq<Option<Slot<T>>>, k: int, item: Slot<T>)
    requires
        s.len() == CAPACITY,
        0 <= k < CAPACITY,
    ensures
        s[k] is None ==> count_filled(s.update(k, Some(item)), CAPACITY as int) == count_filled(
            s,
            CAPACITY as int,
        ) + 1,
        s[k] is Some ==> count_filled(s.update(k, None), CAPACITY as int) + 1 == count_filled(
            s,
            CAPACITY as int,
        ),
{
    lemma_count_filled_update(s, k, Some(item), CAPACITY as int);
    lemma_count_filled_update(s, k, None, CAPACITY as int);
}

} // verus!
