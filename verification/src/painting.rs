//! The portraits' behaviour, as far as it is decisions: the face a portrait wears and when it
//! changes, where its eyes stay while nobody looks, and the painted key's life from paint to
//! hand. How long a stretch has lasted and how far the key has come out are seconds, and the
//! renderer keeps them; what they lead to is decided here.
//!
//! A face changes only while unobserved, once per unobserved stretch, one step round a cycle
//! of three. The eyes, while nobody looks, stay on where the viewer was last seen from. The
//! key comes out of the canvas while the player stands in the sweet spot, sinks back when
//! they leave, and is the player's for good once taken.

use vstd::prelude::*;

verus! {

/// Fixed steps between observation tests: each painting asks on its own phase, so the
/// walks spread across steps.
pub const WATCH_EVERY: u32 = 10;

/// Whether a painting whose step counter reads `steps` asks this step if it is observed, and
/// the counter after the step.
pub fn watch_step(steps: u32) -> (r: (bool, u32))
    ensures
        r.0 == (steps % WATCH_EVERY == 0),
        r.1 == (if steps == u32::MAX {
            0
        } else {
            steps + 1
        }),
{
    (steps % WATCH_EVERY == 0, steps.wrapping_add(1))
}

/// The three faces a portrait cycles through while unobserved.
#[derive(Clone, Copy, PartialEq, Eq, Debug, Structural)]
pub enum Stage {
    /// The sitter as painted: the smile, the eyes on you.
    Smile,
    /// The mouth sad, the eyes turned to the viewer's left and frozen on where you were.
    SadAway,
    /// The mouth angry, the eyes back on you.
    Angry,
}

impl Stage {
    /// One step round the cycle.
    pub open spec fn after(self) -> Stage {
        match self {
            Stage::Smile => Stage::SadAway,
            Stage::SadAway => Stage::Angry,
            Stage::Angry => Stage::Smile,
        }
    }

    /// The mouth, as an index into the atlas's three: smile, sad, angry.
    pub open spec fn mouth_index(self) -> int {
        match self {
            Stage::Smile => 0,
            Stage::SadAway => 1,
            Stage::Angry => 2,
        }
    }

    pub fn next(self) -> (r: Stage)
        ensures
            r == self.after(),
    {
        match self {
            Stage::Smile => Stage::SadAway,
            Stage::SadAway => Stage::Angry,
            Stage::Angry => Stage::Smile,
        }
    }

    pub fn mouth(self) -> (r: usize)
        ensures
            r == self.mouth_index(),
    {
        match self {
            Stage::Smile => 0,
            Stage::SadAway => 1,
            Stage::Angry => 2,
        }
    }

    /// Whether the eyes have turned to the left-looking pair.
    pub fn eyes_left(self) -> (r: bool)
        ensures
            r == (self == Stage::SadAway),
    {
        self == Stage::SadAway
    }
}

/// Three changes bring a face back to where it started, and each face wears its own mouth.
pub proof fn lemma_the_faces_cycle_in_three(s: Stage, t: Stage)
    ensures
        s.after().after().after() == s,
        s.after() != s,
        s.mouth_index() == t.mouth_index() <==> s == t,
        0 <= s.mouth_index() < 3,
{
}

/// The expression state machine: the face, the one before it (which the crossfade fades
/// from), and whether this unobserved stretch has had its change.
#[derive(Clone, Copy, PartialEq, Eq, Debug, Structural)]
pub struct Expression {
    pub stage: Stage,
    pub prev: Stage,
    pub flipped: bool,
}

/// The expression after a step: observed, the stretch is over and nothing changes; unobserved
/// past the grace, a stretch that has not changed yet changes once.
pub open spec fn expression_after(e: Expression, observed: bool, past_grace: bool) -> Expression {
    if observed {
        Expression { flipped: false, ..e }
    } else if !e.flipped && past_grace {
        Expression { stage: e.stage.after(), prev: e.stage, flipped: true }
    } else {
        e
    }
}

impl Expression {
    /// The sitter as painted, settled.
    pub fn new() -> (e: Expression)
        ensures
            e == (Expression { stage: Stage::Smile, prev: Stage::Smile, flipped: false }),
    {
        Expression { stage: Stage::Smile, prev: Stage::Smile, flipped: false }
    }

    /// One fixed step: `observed` is this step's answer, `past_grace` whether the current
    /// unobserved stretch has now lasted longer than the grace. Returns whether the face
    /// changed, which restarts the crossfade.
    pub fn step(&mut self, observed: bool, past_grace: bool) -> (changed: bool)
        ensures
            *final(self) == expression_after(*old(self), observed, past_grace),
            changed == (final(self).stage != old(self).stage),
    {
        if observed {
            self.flipped = false;
            return false;
        }
        if !self.flipped && past_grace {
            self.prev = self.stage;
            self.stage = self.stage.next();
            self.flipped = true;
            return true;
        }
        false
    }

    /// Whether the eyes are turned away and frozen on the last sighting.
    pub fn eyes_frozen(&self) -> (r: bool)
        ensures
            r == (self.stage == Stage::SadAway),
    {
        self.stage == Stage::SadAway
    }
}

/// The expression after a run of steps, each `(observed, past_grace)`.
pub open spec fn expression_run(e: Expression, steps: Seq<(bool, bool)>) -> Expression
    decreases steps.len(),
{
    if steps.len() == 0 {
        e
    } else {
        let (o, g) = steps.last();
        expression_after(expression_run(e, steps.drop_last()), o, g)
    }
}

/// You never catch it moving: however long a portrait is watched, its face stays as it is.
pub proof fn lemma_a_watched_face_never_changes(e: Expression, steps: Seq<(bool, bool)>)
    requires
        forall|i: int| 0 <= i < steps.len() ==> (#[trigger] steps[i]).0,
    ensures
        expression_run(e, steps).stage == e.stage,
        expression_run(e, steps).prev == e.prev,
    decreases steps.len(),
{
    if steps.len() > 0 {
        assert forall|i: int| 0 <= i < steps.drop_last().len() implies (
        #[trigger] steps.drop_last()[i]).0 by {
            assert(steps.drop_last()[i] == steps[i]);
        }
        lemma_a_watched_face_never_changes(e, steps.drop_last());
        assert(steps[steps.len() - 1].0);
    }
}

/// One unobserved stretch changes the face at most once: from a stretch that has already had
/// its change, no number of further unobserved steps changes it again.
pub proof fn lemma_one_change_per_stretch(e: Expression, steps: Seq<(bool, bool)>)
    requires
        e.flipped,
        forall|i: int| 0 <= i < steps.len() ==> !(#[trigger] steps[i]).0,
    ensures
        expression_run(e, steps) == e,
    decreases steps.len(),
{
    if steps.len() > 0 {
        assert forall|i: int| 0 <= i < steps.drop_last().len() implies !(
        #[trigger] steps.drop_last()[i]).0 by {
            assert(steps.drop_last()[i] == steps[i]);
        }
        lemma_one_change_per_stretch(e, steps.drop_last());
        assert(!steps[steps.len() - 1].0);
    }
}

/// Where the eyes aim from, for any kind of point `P` the renderer measures in.
pub struct Gaze<P> {
    /// Where a slide starts from: the viewer's eye as of the last settled observation, or as
    /// of the last sighting once it ended. `None` before the first look.
    pub anchor: Option<P>,
    /// The viewer's eye as of this observed stretch's latest step.
    pub last_seen: Option<P>,
}

/// The gaze after a step in which the painting is seen from `seen_from`, if it is, with
/// `settled` saying whether the observed stretch has lasted the whole slide.
pub open spec fn gaze_after<P>(g: Gaze<P>, seen_from: Option<P>, settled: bool) -> Gaze<P> {
    match seen_from {
        Some(from) => Gaze {
            anchor: if settled || g.anchor is None {
                Some(from)
            } else {
                g.anchor
            },
            last_seen: Some(from),
        },
        None => Gaze {
            anchor: match g.last_seen {
                Some(last) => Some(last),
                None => g.anchor,
            },
            last_seen: None,
        },
    }
}

impl<P: Copy> Gaze<P> {
    /// Never looked at: the eyes follow whoever looks.
    pub fn new() -> (g: Gaze<P>)
        ensures
            g.anchor is None,
            g.last_seen is None,
    {
        Gaze { anchor: None, last_seen: None }
    }

    /// One fixed step. While watched, the anchor follows the viewer only once the slide is
    /// over (or on the very first look), so a slide is always from the old anchor; when the
    /// look ends, the anchor is where the viewer was last seen from, however short the look.
    pub fn step(&mut self, seen_from: Option<P>, settled: bool)
        ensures
            *final(self) == gaze_after(*old(self), seen_from, settled),
    {
        match seen_from {
            Some(from) => {
                if settled || self.anchor.is_none() {
                    self.anchor = Some(from);
                }
                self.last_seen = Some(from);
            },
            None => {
                if let Some(last) = self.last_seen {
                    self.anchor = Some(last);
                }
                self.last_seen = None;
            },
        }
    }

    /// Where the viewer was last seen from, with no slide: `eye` itself before the first look.
    pub fn remembered(&self, eye: P) -> (r: P)
        ensures
            r == match self.anchor {
                Some(a) => a,
                None => eye,
            },
    {
        match self.anchor {
            Some(a) => a,
            None => eye,
        }
    }
}

/// The gaze after a run of steps, each `(seen_from, settled)`.
pub open spec fn gaze_run<P>(g: Gaze<P>, steps: Seq<(Option<P>, bool)>) -> Gaze<P>
    decreases steps.len(),
{
    if steps.len() == 0 {
        g
    } else {
        let (s, d) = steps.last();
        gaze_after(gaze_run(g, steps.drop_last()), s, d)
    }
}

/// A look is remembered, however short: when a look ends, the eyes stay on the last place
/// the viewer was seen from, and stay there for as long as nobody looks.
pub proof fn lemma_a_look_is_remembered<P>(
    g: Gaze<P>,
    look: Seq<(Option<P>, bool)>,
    away: Seq<(Option<P>, bool)>,
)
    requires
        look.len() > 0,
        look.last().0 is Some,
        away.len() > 0,
        forall|i: int| 0 <= i < away.len() ==> (#[trigger] away[i]).0 is None,
    ensures
        gaze_run(g, look + away).anchor == look.last().0,
    decreases away.len(),
{
    let all = look + away;
    assert(all.drop_last() =~= look + away.drop_last());
    assert(all.last() == away.last());
    if away.len() == 1 {
        assert(all.drop_last() =~= look);
        assert(gaze_run(g, look).last_seen == look.last().0);
    } else {
        assert forall|i: int| 0 <= i < away.drop_last().len() implies (
        #[trigger] away.drop_last()[i]).0 is None by {
            assert(away.drop_last()[i] == away[i]);
        }
        lemma_a_look_is_remembered(g, look, away.drop_last());
        lemma_unseen_forgets_the_last_sighting(g, look, away.drop_last());
        assert(away[away.len() - 1].0 is None);
    }
}

/// After a step unobserved, nothing of the look is left to take.
proof fn lemma_unseen_forgets_the_last_sighting<P>(
    g: Gaze<P>,
    look: Seq<(Option<P>, bool)>,
    away: Seq<(Option<P>, bool)>,
)
    requires
        away.len() > 0,
        away.last().0 is None,
    ensures
        gaze_run(g, look + away).last_seen is None,
{
    let all = look + away;
    assert(all.last() == away.last());
}

/// What the key is doing, as a state machine over the sweet spot and the grab.
#[derive(Clone, Copy, PartialEq, Eq, Debug, Structural)]
pub enum KeyPhase {
    /// On the canvas, paint only.
    Painted,
    /// The real key coming out, the paint fading.
    Emerging,
    /// Out, floating in front of the canvas, waiting to be taken.
    Out,
    /// The player left the spot: going back in, the paint returning.
    Sinking,
    /// In the player's hand, or wherever it went from there: nothing left on the canvas.
    Taken,
}

/// What the painting must do about a step.
#[derive(Clone, Copy, PartialEq, Eq, Debug, Structural)]
pub enum KeyEvent {
    /// Put the key object in the scene.
    Spawn,
    /// Take it out again.
    Remove,
}

/// What a step does to how far out the key is.
#[derive(Clone, Copy, PartialEq, Eq, Debug, Structural)]
pub enum Ramp {
    /// Stays where it is.
    Hold,
    /// All the way out: taken.
    Full,
    /// Back to nothing: the first step out starts from the canvas.
    Empty,
    /// Out by a step's worth, stopping at all the way.
    Rise,
    /// In by a step's worth, stopping at nothing.
    Fall,
}

/// Whether the key object is in the scene and the painting's to move.
pub open spec fn is_floating(p: KeyPhase) -> bool {
    p == KeyPhase::Emerging || p == KeyPhase::Out || p == KeyPhase::Sinking
}

/// A step from `p`: `armed` is whether the player is in the sweet spot, `taken` whether the
/// key has been grabbed, and `ramp_done` whether this step's rise (emerging) or fall
/// (sinking) reaches its end. A take wins over everything and is final; otherwise arming
/// drives the key out and disarming lets it sink, reversible at any point.
pub open spec fn key_step(p: KeyPhase, armed: bool, taken: bool, ramp_done: bool) -> (
    KeyPhase,
    Option<KeyEvent>,
    Ramp,
) {
    if taken {
        (KeyPhase::Taken, None, Ramp::Full)
    } else {
        match p {
            KeyPhase::Painted => if armed {
                (KeyPhase::Emerging, Some(KeyEvent::Spawn), Ramp::Empty)
            } else {
                (KeyPhase::Painted, None, Ramp::Hold)
            },
            KeyPhase::Taken => (KeyPhase::Taken, None, Ramp::Hold),
            KeyPhase::Emerging => if !armed {
                (KeyPhase::Sinking, None, Ramp::Hold)
            } else if ramp_done {
                (KeyPhase::Out, None, Ramp::Rise)
            } else {
                (KeyPhase::Emerging, None, Ramp::Rise)
            },
            KeyPhase::Out => if !armed {
                (KeyPhase::Sinking, None, Ramp::Hold)
            } else {
                (KeyPhase::Out, None, Ramp::Hold)
            },
            KeyPhase::Sinking => if armed {
                (KeyPhase::Emerging, None, Ramp::Hold)
            } else if ramp_done {
                (KeyPhase::Painted, Some(KeyEvent::Remove), Ramp::Fall)
            } else {
                (KeyPhase::Sinking, None, Ramp::Fall)
            },
        }
    }
}

/// The painted key's emergence.
pub struct Emergence {
    pub phase: KeyPhase,
}

impl Emergence {
    /// Paint only.
    pub fn new() -> (e: Emergence)
        ensures
            e.phase == KeyPhase::Painted,
    {
        Emergence { phase: KeyPhase::Painted }
    }

    /// One fixed step (see [`key_step`]). Returns what the scene must do with the key object,
    /// and what the step does to how far out it is.
    pub fn step(&mut self, armed: bool, taken: bool, ramp_done: bool) -> (r: (Option<KeyEvent>, Ramp))
        ensures
            (final(self).phase, r.0, r.1) == key_step(old(self).phase, armed, taken, ramp_done),
    {
        if taken {
            self.phase = KeyPhase::Taken;
            return (None, Ramp::Full);
        }
        match self.phase {
            KeyPhase::Painted => {
                if armed {
                    self.phase = KeyPhase::Emerging;
                    (Some(KeyEvent::Spawn), Ramp::Empty)
                } else {
                    (None, Ramp::Hold)
                }
            },
            KeyPhase::Taken => (None, Ramp::Hold),
            KeyPhase::Emerging => {
                if !armed {
                    self.phase = KeyPhase::Sinking;
                    (None, Ramp::Hold)
                } else {
                    if ramp_done {
                        self.phase = KeyPhase::Out;
                    }
                    (None, Ramp::Rise)
                }
            },
            KeyPhase::Out => {
                if !armed {
                    self.phase = KeyPhase::Sinking;
                }
                (None, Ramp::Hold)
            },
            KeyPhase::Sinking => {
                if armed {
                    self.phase = KeyPhase::Emerging;
                    (None, Ramp::Hold)
                } else if ramp_done {
                    self.phase = KeyPhase::Painted;
                    (Some(KeyEvent::Remove), Ramp::Fall)
                } else {
                    (None, Ramp::Fall)
                }
            },
        }
    }

    /// Whether the key object is in the scene and the painting's to move.
    pub fn floating(&self) -> (r: bool)
        ensures
            r == is_floating(self.phase),
    {
        match self.phase {
            KeyPhase::Emerging | KeyPhase::Out | KeyPhase::Sinking => true,
            KeyPhase::Painted | KeyPhase::Taken => false,
        }
    }

    /// Whether the painted key glints and the HUD offers it: the player is in the sweet spot
    /// and the key has not been taken.
    pub fn glint(&self, armed: bool) -> (r: bool)
        ensures
            r == (armed && self.phase != KeyPhase::Taken),
    {
        armed && self.phase != KeyPhase::Taken
    }
}

/// The phase after a run of steps, each `(armed, taken, ramp_done)`, and how many key objects
/// the run's events have put in the scene (spawns less removals).
pub open spec fn key_run(p: KeyPhase, steps: Seq<(bool, bool, bool)>) -> (KeyPhase, int)
    decreases steps.len(),
{
    if steps.len() == 0 {
        (p, 0)
    } else {
        let (q, n) = key_run(p, steps.drop_last());
        let (a, t, d) = steps.last();
        let (q2, ev, _) = key_step(q, a, t, d);
        (
            q2,
            n + match ev {
                Some(KeyEvent::Spawn) => 1int,
                Some(KeyEvent::Remove) => -1int,
                None => 0int,
            },
        )
    }
}

/// Taking the key is final: from the hand, nothing the spot does brings it back to the
/// painting, and no step asks for another spawn or a removal.
pub proof fn lemma_taking_the_key_is_final(steps: Seq<(bool, bool, bool)>)
    ensures
        key_run(KeyPhase::Taken, steps) == (KeyPhase::Taken, 0int),
    decreases steps.len(),
{
    if steps.len() > 0 {
        lemma_taking_the_key_is_final(steps.drop_last());
    }
}

/// The key object is in the scene from the first step out to the last step back: starting
/// from paint, the run's spawns less its removals are one exactly while the key floats and
/// none while it is paint -- never a second spawn, never a removal of nothing. Once taken it
/// is whatever it was when the hand closed.
pub proof fn lemma_the_key_is_in_the_scene_exactly_while_it_floats(
    steps: Seq<(bool, bool, bool)>,
)
    ensures
        ({
            let (q, n) = key_run(KeyPhase::Painted, steps);
            &&& is_floating(q) ==> n == 1
            &&& q == KeyPhase::Painted ==> n == 0
            &&& q == KeyPhase::Taken ==> (n == 0 || n == 1)
        }),
    decreases steps.len(),
{
    if steps.len() > 0 {
        lemma_the_key_is_in_the_scene_exactly_while_it_floats(steps.drop_last());
    }
}

} // verus!
