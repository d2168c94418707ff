//! One-frame-late portal occlusion queries: which portal passes are worth drawing, decided
//! from the query each portal ran on the previous frame.
//!
//! A slot is one portal seen from one pass, and a pass is named by the chain of portals it is
//! seen through, packed into a [`Path`]. Every query is stamped with the frame it was issued
//! on, and a result is believed only when it is exactly one frame old; in every other case --
//! never asked, asked about an older view, or not yet back from the GPU -- the portal is drawn.
//! The GL query objects themselves are the renderer's, kept in slot order: this is the book
//! of which slot was asked when.

use vstd::prelude::*;
use crate::game_header::GH_MAX_PORTALS;

verus! {

/// A pass's name: the chain of portal indices it is seen through, packed little-end first.
pub type Path = u32;

/// The main view: seen through no portal at all.
pub const ROOT: Path = 0;

/// Bits per link; holds `GH_MAX_PORTALS` indices plus the "no link" zero.
pub const LINK_BITS: u32 = 5;

/// The name of the pass inside portal `i` of the pass named `path`: the chain shifted one
/// link along, with `i + 1` in the freed low bits so that index 0 is not "no link".
pub fn push(path: Path, i: usize) -> (r: Path)
    requires
        i < GH_MAX_PORTALS,
    ensures
        r as int == (path as int * 32) % 0x1_0000_0000 + i + 1,
        r % 32 == i + 1,
        path < 0x800_0000 ==> r / 32 == path,
{
    let low: u32 = i as u32 + 1;
    let r = (path << LINK_BITS) | low;
    assert(r as int == (path as int * 32) % 0x1_0000_0000 + low) by (bit_vector)
        requires
            r == (path << 5u32) | low,
            1 <= low <= 16,
    ;
    r
}

/// Two chains name the same pass only when they are the same chain, and no chain names the
/// main view: pushing onto paths short enough to hold another link never collides.
pub proof fn lemma_push_names_uniquely(a: Path, i: int, b: Path, j: int, ra: Path, rb: Path)
    requires
        0 <= i < GH_MAX_PORTALS,
        0 <= j < GH_MAX_PORTALS,
        a < 0x800_0000,
        b < 0x800_0000,
        ra as int == (a as int * 32) % 0x1_0000_0000 + i + 1,
        rb as int == (b as int * 32) % 0x1_0000_0000 + j + 1,
    ensures
        ra != ROOT,
        ra == rb <==> (a == b && i == j),
{
    assert(a as int * 32 < 0x1_0000_0000);
    assert(b as int * 32 < 0x1_0000_0000);
}

/// The decision rule for drawing a portal.
pub struct SlotPolicy;

impl SlotPolicy {
    /// Whether a portal should be drawn on frame `now`, given that its slot's query was last
    /// issued on `issued` (`None` if never), whether that query's result is `available`, and
    /// the `samples` it counted if so. Hidden only on a one-frame-old, available,
    /// zero-sample result; drawn in every other case.
    pub fn decide(now: u64, issued: Option<u64>, available: bool, samples: u32) -> (r: bool)
        ensures
            !r <==> (issued == Some((now - 1) as u64) && now >= 1 && available && samples == 0),
    {
        match issued {
            Some(f) if f < now && f + 1 == now => !available || samples > 0,
            _ => true,
        }
    }
}

/// One slot: the pass, the portal, and the frame its query was last issued on.
#[derive(Clone, Copy)]
pub struct Slot {
    pub path: Path,
    pub index: usize,
    pub issued: Option<u64>,
}

/// The slots a scene has asked about, and the frame in flight.
pub struct Occlusion {
    slots: Vec<Slot>,
    /// Number of portals the slots were issued against; a change makes every index mean
    /// something else, so every stored stamp is dropped.
    portal_count: usize,
    /// The frame in flight: what a query issued now is stamped with.
    frame: u64,
}

/// The position of the slot for `(path, i)` in `slots`, when it has one.
pub open spec fn slot_pos(slots: Seq<Slot>, path: Path, i: usize) -> Option<int> {
    if exists|k: int| 0 <= k < slots.len() && slots[k].path == path && slots[k].index == i {
        Some(
            choose|k: int| 0 <= k < slots.len() && slots[k].path == path && slots[k].index == i,
        )
    } else {
        None
    }
}

impl Occlusion {
    /// No two slots name the same pass and portal, and the frame counter has started.
    pub closed spec fn wf(&self) -> bool {
        &&& self.frame >= 1
        &&& forall|a: int, b: int|
            0 <= a < b < self.slots.len() ==> !(#[trigger] self.slots@[a].path
                == #[trigger] self.slots@[b].path && self.slots@[a].index == self.slots@[b].index)
    }

    /// The slots, in the order their query objects were made.
    pub closed spec fn slots(&self) -> Seq<Slot> {
        self.slots@
    }

    /// The frame in flight.
    pub closed spec fn frame(&self) -> u64 {
        self.frame
    }

    /// The portal count the stamps were taken against.
    pub closed spec fn portal_count(&self) -> usize {
        self.portal_count
    }

    /// When the slot for `(path, i)` was last issued, if ever since the last reset.
    pub open spec fn stamp(&self, path: Path, i: usize) -> Option<u64> {
        match slot_pos(self.slots(), path, i) {
            Some(k) => self.slots()[k].issued,
            None => None,
        }
    }

    /// No slots yet, and the first frame: nothing has been asked, so every portal is drawn.
    pub fn new() -> (o: Occlusion)
        ensures
            o.wf(),
            o.slots().len() == 0,
            o.frame() == 1,
            o.portal_count() == 0,
            forall|p: Path, j: usize| #[trigger] o.stamp(p, j) is None,
    {
        Occlusion { slots: Vec::new(), portal_count: 0, frame: 1 }
    }

    /// Begin a new frame: only results issued on the frame just ended will be believed.
    pub fn next_frame(&mut self)
        requires
            old(self).wf(),
            old(self).frame() < u64::MAX,
        ensures
            final(self).wf(),
            final(self).frame() == old(self).frame() + 1,
            final(self).slots() == old(self).slots(),
            final(self).portal_count() == old(self).portal_count(),
            called(*old(self), *final(self), Op::NextFrame),
    {
        self.frame = self.frame + 1;
    }

    /// Forget every stored stamp; the slots and their query objects are kept for reuse.
    pub fn reset(&mut self)
        requires
            old(self).wf(),
        ensures
            final(self).wf(),
            final(self).frame() == old(self).frame(),
            final(self).portal_count() == old(self).portal_count(),
            final(self).slots().len() == old(self).slots().len(),
            forall|k: int|
                0 <= k < final(self).slots().len() ==> #[trigger] final(self).slots()[k] == (Slot {
                    issued: None,
                    ..old(self).slots()[k]
                }),
            called(*old(self), *final(self), Op::Reset),
    {
        let n = self.slots.len();
        let mut k: usize = 0;
        while k < n
            invariant
                0 <= k <= n == self.slots.len() == old(self).slots@.len(),
                self.frame == old(self).frame,
                self.portal_count == old(self).portal_count,
                forall|j: int|
                    0 <= j < k ==> #[trigger] self.slots@[j] == (Slot {
                        issued: None,
                        ..old(self).slots@[j]
                    }),
                forall|j: int| k <= j < n ==> #[trigger] self.slots@[j] == old(self).slots@[j],
            decreases n - k,
        {
            let s = self.slots[k];
            self.slots.set(k, Slot { issued: None, ..s });
            k += 1;
        }
        assert(self.wf()) by {
            assert forall|a: int, b: int|
                0 <= a < b < self.slots.len() implies !(#[trigger] self.slots@[a].path
                    == #[trigger] self.slots@[b].path && self.slots@[a].index
                    == self.slots@[b].index) by {
                assert(self.slots@[a].path == old(self).slots@[a].path);
                assert(self.slots@[b].path == old(self).slots@[b].path);
            }
        }
        assert forall|p: Path, j: usize| #[trigger] self.stamp(p, j) is None by {
            if let Some(k) = slot_pos(self.slots(), p, j) {
                assert(self.slots()[k].issued is None);
            }
        }
    }

    /// Where the slot for `(path, i)` is, when it has one.
    fn find(&self, path: Path, i: usize) -> (r: Option<usize>)
        requires
            self.wf(),
        ensures
            r matches Some(k) ==> slot_pos(self.slots(), path, i) == Some(k as int),
            r is None ==> slot_pos(self.slots(), path, i) is None,
    {
        let n = self.slots.len();
        let mut k: usize = 0;
        while k < n
            invariant
                0 <= k <= n == self.slots.len(),
                self.wf(),
                forall|j: int|
                    0 <= j < k ==> !(#[trigger] self.slots@[j].path == path && self.slots@[j].index
                        == i),
            decreases n - k,
        {
            if self.slots[k].path == path && self.slots[k].index == i {
                proof {
                    let c = choose|c: int|
                        0 <= c < self.slots@.len() && self.slots@[c].path == path
                            && self.slots@[c].index == i;
                    if c != k as int {
                        if c < k {
                        } else {
                            assert(!(self.slots@[k as int].path == self.slots@[c].path
                                && self.slots@[k as int].index == self.slots@[c].index));
                        }
                    }
                }
                return Some(k);
            }
            k += 1;
        }
        None
    }

    /// The slot whose query result should be fetched before deciding on the portal at index
    /// `i` seen from the pass `path`: only a stamp exactly one frame old is worth the driver's
    /// time. A change in `portal_count` first drops every stamp, since every index now names a
    /// different portal.
    pub fn pending_result(&mut self, path: Path, i: usize, portal_count: usize) -> (r: Option<
        usize,
    >)
        requires
            old(self).wf(),
        ensures
            final(self).wf(),
            final(self).frame() == old(self).frame(),
            final(self).portal_count() == portal_count,
            portal_count == old(self).portal_count() ==> final(self).slots() == old(self).slots(),
            portal_count != old(self).portal_count() ==> forall|p: Path, j: usize|
                #[trigger] final(self).stamp(p, j) is None,
            final(self).slots().len() == old(self).slots().len(),
            forall|k: int|
                0 <= k < final(self).slots().len() ==> (#[trigger] final(self).slots()[k]).path
                    == old(self).slots()[k].path && final(self).slots()[k].index == old(
                    self,
                ).slots()[k].index,
            match r {
                Some(k) => slot_pos(final(self).slots(), path, i) == Some(k as int)
                    && final(self).stamp(path, i) == Some((final(self).frame() - 1) as u64),
                None => final(self).stamp(path, i) != Some((final(self).frame() - 1) as u64),
            },
            called(*old(self), *final(self), Op::Fetch { path, i, portal_count }),
    {
        if portal_count != self.portal_count {
            self.portal_count = portal_count;
            self.reset();
            proof {
                assert forall|p: Path, j: usize| #[trigger] self.stamp(p, j) is None by {
                    if let Some(k) = slot_pos(self.slots(), p, j) {
                        assert(self.slots()[k].issued is None);
                    }
                }
            }
        }
        match self.find(path, i) {
            Some(k) => {
                match self.slots[k].issued {
                    Some(f) => {
                        if f < self.frame && f == self.frame - 1 {
                            Some(k)
                        } else {
                            None
                        }
                    },
                    None => None,
                }
            },
            None => None,
        }
    }

    /// Whether the portal at index `i`, seen from the pass `path`, is to be drawn this frame,
    /// given the fetched `(available, samples)` of its query when [`Occlusion::pending_result`]
    /// asked for one: hidden only when last frame's query came back with no samples.
    pub fn visible(&self, path: Path, i: usize, fetched: Option<(bool, u32)>) -> (r: bool)
        requires
            self.wf(),
        ensures
            ({
                let (available, samples) = match fetched {
                    Some(x) => x,
                    None => (false, 0u32),
                };
                !r <==> (self.stamp(path, i) == Some((self.frame() - 1) as u64) && available
                    && samples == 0)
            }),
            r == drawn(*self, path, i, fetched),
    {
        let issued = match self.find(path, i) {
            Some(k) => self.slots[k].issued,
            None => None,
        };
        let (available, samples) = match fetched {
            Some(x) => x,
            None => (false, 0u32),
        };
        SlotPolicy::decide(self.frame, issued, available, samples)
    }

    /// Stamp the slot for `(path, i)` with the current frame, making it first if it is new.
    /// Returns the slot's position, which names its query object, and whether it was new --
    /// in which case the renderer makes a query object for it.
    pub fn begin(&mut self, path: Path, i: usize) -> (r: (usize, bool))
        requires
            old(self).wf(),
        ensures
            final(self).wf(),
            final(self).frame() == old(self).frame(),
            final(self).portal_count() == old(self).portal_count(),
            final(self).stamp(path, i) == Some(old(self).frame()),
            slot_pos(final(self).slots(), path, i) == Some(r.0 as int),
            r.1 <==> slot_pos(old(self).slots(), path, i) is None,
            r.1 ==> final(self).slots().len() == old(self).slots().len() + 1,
            !r.1 ==> final(self).slots().len() == old(self).slots().len(),
            forall|k: int|
                0 <= k < old(self).slots().len() && k != r.0 ==> #[trigger] final(self).slots()[k]
                    == old(self).slots()[k],
            forall|p: Path, j: usize|
                !(p == path && j == i) ==> #[trigger] final(self).stamp(p, j) == old(self).stamp(
                    p,
                    j,
                ),
            called(*old(self), *final(self), Op::Begin { path, i }),
    {
        let ghost before = self.slots@;
        let now = self.frame;
        match self.find(path, i) {
            Some(k) => {
                let s = self.slots[k];
                self.slots.set(k, Slot { issued: Some(now), ..s });
                proof {
                    assert(self.wf()) by {
                        assert forall|a: int, b: int|
                            0 <= a < b < self.slots.len() implies !(
                            #[trigger] self.slots@[a].path == #[trigger] self.slots@[b].path
                                && self.slots@[a].index == self.slots@[b].index) by {
                            assert(self.slots@[a].path == before[a].path);
                            assert(self.slots@[b].path == before[b].path);
                            assert(self.slots@[a].index == before[a].index);
                            assert(self.slots@[b].index == before[b].index);
                        }
                    }
                    self.lemma_slot_pos_same_keys(before, path, i);
                    assert forall|p: Path, j: usize| !(p == path && j == i) implies #[trigger] self.stamp(
                        p,
                        j,
                    ) == stamp_in(before, p, j) by {
                        self.lemma_slot_pos_same_keys(before, p, j);
                    }
                }
                (k, false)
            },
            None => {
                self.slots.push(Slot { path, index: i, issued: Some(now) });
                let k = self.slots.len() - 1;
                proof {
                    assert(self.wf()) by {
                        assert forall|a: int, b: int|
                            0 <= a < b < self.slots.len() implies !(
                            #[trigger] self.slots@[a].path == #[trigger] self.slots@[b].path
                                && self.slots@[a].index == self.slots@[b].index) by {
                            if b == k {
                                assert(self.slots@[a] == before[a]);
                            }
                        }
                    }
                    lemma_slot_pos_unique(self.slots@, path, i, k as int);
                    assert forall|p: Path, j: usize| !(p == path && j == i) implies #[trigger] self.stamp(
                        p,
                        j,
                    ) == stamp_in(before, p, j) by {
                        lemma_slot_pos_push(before, Slot { path, index: i, issued: Some(now) }, p, j);
                    }
                }
                (k, true)
            },
        }
    }

    /// Stamps are read the same in a list whose keys are those of `before`.
    proof fn lemma_slot_pos_same_keys(&self, before: Seq<Slot>, p: Path, j: usize)
        requires
            self.wf(),
            self.slots@.len() == before.len(),
            forall|k: int|
                0 <= k < before.len() ==> (#[trigger] self.slots@[k]).path == before[k].path
                    && self.slots@[k].index == before[k].index,
        ensures
            slot_pos(self.slots@, p, j) == slot_pos(before, p, j),
    {
        assert forall|a: int, b: int|
            0 <= a < b < before.len() implies !(#[trigger] before[a].path == #[trigger] before[b].path
                && before[a].index == before[b].index) by {
            assert(self.slots@[a].path == before[a].path && self.slots@[a].index == before[a].index);
            assert(self.slots@[b].path == before[b].path && self.slots@[b].index == before[b].index);
        }
        if exists|k: int| 0 <= k < before.len() && before[k].path == p && before[k].index == j {
            let k = choose|k: int| 0 <= k < before.len() && before[k].path == p && before[k].index == j;
            assert(self.slots@[k].path == p && self.slots@[k].index == j);
            lemma_slot_pos_unique(before, p, j, k);
            lemma_slot_pos_unique(self.slots@, p, j, k);
        }
    }

    /// How many slots there are: the query objects the renderer keeps.
    pub fn slot_count(&self) -> (r: usize)
        ensures
            r == self.slots().len(),
    {
        self.slots.len()
    }
}

/// A call that changes the book, for stating what holds across calls.
pub enum Op {
    NextFrame,
    Reset,
    /// [`Occlusion::pending_result`], with the portal count it was handed.
    Fetch { path: Path, i: usize, portal_count: usize },
    Begin { path: Path, i: usize },
}

/// What `op` leaves of `a` in `b`, as far as the frame, the portal count and the stamps go.
pub open spec fn called(a: Occlusion, b: Occlusion, op: Op) -> bool {
    &&& b.wf()
    &&& match op {
        Op::NextFrame => b.frame() == a.frame() + 1 && b.portal_count() == a.portal_count()
            && b.slots() == a.slots(),
        Op::Reset => b.frame() == a.frame() && b.portal_count() == a.portal_count() && forall|
            p: Path,
            j: usize,
        | #[trigger] b.stamp(p, j) is None,
        Op::Fetch { portal_count, .. } => b.frame() == a.frame() && b.portal_count()
            == portal_count && (portal_count == a.portal_count() ==> b.slots() == a.slots()) && (
        portal_count != a.portal_count() ==> forall|p: Path, j: usize| #[trigger] b.stamp(p, j) is None),
        Op::Begin { path, i } => b.frame() == a.frame() && b.portal_count() == a.portal_count()
            && b.stamp(path, i) == Some(a.frame()) && forall|p: Path, j: usize|
            !(p == path && j == i) ==> #[trigger] b.stamp(p, j) == a.stamp(p, j),
    }
}

/// Whether the portal at `i` seen from `path` is drawn on `o`'s frame, given what was
/// fetched of its query.
pub open spec fn drawn(o: Occlusion, path: Path, i: usize, fetched: Option<(bool, u32)>) -> bool {
    let (available, samples) = match fetched {
        Some(x) => x,
        None => (false, 0u32),
    };
    !(o.stamp(path, i) == Some((o.frame() - 1) as u64) && available && samples == 0)
}

/// `os` is a run of the book: each state is what the call beside it left of the one before.
pub open spec fn is_run(os: Seq<Occlusion>, ops: Seq<Op>) -> bool {
    &&& os.len() == ops.len() + 1
    &&& os[0].wf()
    &&& forall|k: int| 0 <= k < ops.len() ==> called(os[k], os[k + 1], #[trigger] ops[k])
}

/// A stamp is cleared by a new portal count and stays clear until its own `begin`.
proof fn lemma_cleared_until_begun(os: Seq<Occlusion>, ops: Seq<Op>, q: Path, j: usize, n: int)
    requires
        is_run(os, ops),
        1 <= n < os.len(),
        ops[0] matches Op::Fetch { portal_count, .. } && portal_count != os[0].portal_count(),
        forall|k: int| 1 <= k < ops.len() ==> #[trigger] ops[k] != (Op::Begin { path: q, i: j }),
    ensures
        os[n].stamp(q, j) is None,
    decreases n,
{
    if n > 1 {
        lemma_cleared_until_begun(os, ops, q, j, n - 1);
        assert(called(os[n - 1], os[n], ops[n - 1]));
    } else {
        assert(called(os[0], os[1], ops[0]));
    }
}

/// A change in the portal count draws every portal, and each stays drawn, whatever the driver
/// reports, on every later frame until a query is begun on it again.
pub proof fn lemma_new_portal_count_draws_until_begun(
    os: Seq<Occlusion>,
    ops: Seq<Op>,
    q: Path,
    j: usize,
    fetched: Option<(bool, u32)>,
)
    requires
        is_run(os, ops),
        ops.len() >= 1,
        ops[0] matches Op::Fetch { portal_count, .. } && portal_count != os[0].portal_count(),
        forall|k: int| 1 <= k < ops.len() ==> #[trigger] ops[k] != (Op::Begin { path: q, i: j }),
    ensures
        forall|n: int| 1 <= n < os.len() ==> #[trigger] drawn(os[n], q, j, fetched),
{
    assert forall|n: int| 1 <= n < os.len() implies #[trigger] drawn(os[n], q, j, fetched) by {
        lemma_cleared_until_begun(os, ops, q, j, n);
    }
}

/// Every stamp in a run from a book with none names a `begin` of its own slot, made on the
/// frame it carries.
proof fn lemma_stamps_come_from_begins(os: Seq<Occlusion>, ops: Seq<Op>, n: int)
    requires
        is_run(os, ops),
        forall|p: Path, j: usize| #[trigger] os[0].stamp(p, j) is None,
        0 <= n < os.len(),
    ensures
        forall|p: Path, j: usize|
            (#[trigger] os[n].stamp(p, j)) is Some ==> exists|m: int|
                0 <= m < n && #[trigger] ops[m] == (Op::Begin { path: p, i: j }) && Some(
                    os[m].frame(),
                ) == os[n].stamp(p, j),
    decreases n,
{
    if n > 0 {
        lemma_stamps_come_from_begins(os, ops, n - 1);
        assert(called(os[n - 1], os[n], ops[n - 1]));
        assert forall|p: Path, j: usize|
            (#[trigger] os[n].stamp(p, j)) is Some implies exists|m: int|
                0 <= m < n && #[trigger] ops[m] == (Op::Begin { path: p, i: j }) && Some(
                    os[m].frame(),
                ) == os[n].stamp(p, j) by {
            if ops[n - 1] == (Op::Begin { path: p, i: j }) {
                assert(ops[n - 1] == (Op::Begin { path: p, i: j }));
            } else {
                assert(os[n - 1].stamp(p, j) == os[n].stamp(p, j));
                let m = choose|m: int|
                    0 <= m < n - 1 && #[trigger] ops[m] == (Op::Begin { path: p, i: j }) && Some(
                        os[m].frame(),
                    ) == os[n - 1].stamp(p, j);
                assert(ops[m] == (Op::Begin { path: p, i: j }));
            }
        }
    }
}

/// A portal is hidden only when a query was begun on it on the frame just before the
/// current one, and the driver reports that query available with no samples passed: in
/// every run of the book from one with no stamps (as [`Occlusion::new`] makes it).
pub proof fn lemma_hidden_only_after_a_begin_one_frame_back(
    os: Seq<Occlusion>,
    ops: Seq<Op>,
    q: Path,
    j: usize,
    fetched: Option<(bool, u32)>,
)
    requires
        is_run(os, ops),
        forall|p: Path, i: usize| #[trigger] os[0].stamp(p, i) is None,
    ensures
        !drawn(os[ops.len() as int], q, j, fetched) ==> {
            &&& fetched matches Some(x) && x.0 && x.1 == 0
            &&& exists|m: int|
                0 <= m < ops.len() && #[trigger] ops[m] == (Op::Begin { path: q, i: j })
                    && os[m].frame() + 1 == os[ops.len() as int].frame()
        },
{
    let n = ops.len() as int;
    lemma_stamps_come_from_begins(os, ops, n);
    if n > 0 {
        assert(called(os[n - 1], os[n], ops[n - 1]));
    }
    assert(os[n].frame() >= 1);
    if !drawn(os[n], q, j, fetched) {
        let f = (os[n].frame() - 1) as u64;
        assert(os[n].stamp(q, j) == Some(f));
        let m = choose|m: int|
            0 <= m < n && #[trigger] ops[m] == (Op::Begin { path: q, i: j }) && Some(os[m].frame())
                == os[n].stamp(q, j);
        assert(ops[m] == (Op::Begin { path: q, i: j }));
    }
}

/// The stamp of `(p, j)` in a list of slots.
pub open spec fn stamp_in(slots: Seq<Slot>, p: Path, j: usize) -> Option<u64> {
    match slot_pos(slots, p, j) {
        Some(k) => slots[k].issued,
        None => None,
    }
}

proof fn lemma_slot_pos_unique(slots: Seq<Slot>, p: Path, j: usize, k: int)
    requires
        0 <= k < slots.len(),
        slots[k].path == p && slots[k].index == j,
        forall|a: int, b: int|
            0 <= a < b < slots.len() ==> !(#[trigger] slots[a].path == #[trigger] slots[b].path
                && slots[a].index == slots[b].index),
    ensures
        slot_pos(slots, p, j) == Some(k),
{
    let c = choose|c: int| 0 <= c < slots.len() && slots[c].path == p && slots[c].index == j;
    if c < k {
        assert(!(slots[c].path == slots[k].path && slots[c].index == slots[k].index));
    } else if c > k {
        assert(!(slots[k].path == slots[c].path && slots[k].index == slots[c].index));
    }
}

proof fn lemma_slot_pos_push(before: Seq<Slot>, s: Slot, p: Path, j: usize)
    requires
        !(s.path == p && s.index == j),
        forall|a: int, b: int|
            0 <= a < b < before.push(s).len() ==> !(#[trigger] before.push(s)[a].path
                == #[trigger] before.push(s)[b].path && before.push(s)[a].index
                == before.push(s)[b].index),
    ensures
        stamp_in(before.push(s), p, j) == stamp_in(before, p, j),
{
    let after = before.push(s);
    assert forall|a: int, b: int|
        0 <= a < b < before.len() implies !(#[trigger] before[a].path == #[trigger] before[b].path
            && before[a].index == before[b].index) by {
        assert(after[a] == before[a] && after[b] == before[b]);
    }
    if exists|k: int| 0 <= k < before.len() && before[k].path == p && before[k].index == j {
        let k = choose|k: int| 0 <= k < before.len() && before[k].path == p && before[k].index == j;
        assert(after[k] == before[k]);
        lemma_slot_pos_unique(before, p, j, k);
        lemma_slot_pos_unique(after, p, j, k);
    } else {
        if exists|k: int| 0 <= k < after.len() && after[k].path == p && after[k].index == j {
            let k = choose|k: int| 0 <= k < after.len() && after[k].path == p && after[k].index == j;
            assert(k < before.len());
            assert(before[k] == after[k]);
        }
    }
}

} // verus!
