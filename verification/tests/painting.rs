use daydreams::painting::{
    watch_step, Emergence, Expression, Gaze, KeyEvent, KeyPhase, Ramp, Stage, WATCH_EVERY,
};

// The renderer's side of the timing, as the game runs it: a 500 Hz fixed step, and the
// seconds the portraits count in.
const GH_DT: f32 = 0.002;
const GRACE: f32 = 0.4;
const FADE: f32 = 0.25;
const REACQUIRE: f32 = 0.6;
const EMERGE: f32 = 0.5;

/// An expression with the seconds the renderer keeps beside it.
struct Face {
    e: Expression,
    faded: f32,
    unseen: f32,
}

impl Face {
    fn new() -> Face {
        Face { e: Expression::new(), faded: FADE, unseen: 0.0 }
    }

    fn step(&mut self, observed: bool, dt: f32) {
        self.faded = (self.faded + dt).min(FADE);
        if observed {
            self.unseen = 0.0;
        } else {
            self.unseen += dt;
        }
        if self.e.step(observed, !observed && self.unseen > GRACE) {
            self.faded = 0.0;
        }
    }

    fn blend(&self) -> f32 {
        let t = (self.faded / FADE).clamp(0.0, 1.0);
        t * t * (3.0 - 2.0 * t)
    }

    fn mouth_weights(&self) -> [f32; 3] {
        let t = self.blend();
        let mut w = [0.0; 3];
        w[self.e.prev.mouth()] += 1.0 - t;
        w[self.e.stage.mouth()] += t;
        w
    }

    fn eyes_left(&self) -> f32 {
        let t = self.blend();
        let left = |s: Stage| if s.eyes_left() { 1.0 } else { 0.0 };
        left(self.e.prev) * (1.0 - t) + left(self.e.stage) * t
    }
}

fn run(script: &[(bool, f32)]) -> Vec<Stage> {
    let mut f = Face::new();
    let mut out = Vec::new();
    for &(observed, secs) in script {
        let steps = (secs / GH_DT).round() as u32;
        for _ in 0..steps {
            f.step(observed, GH_DT);
        }
        out.push(f.e.stage);
    }
    out
}

#[test]
fn starts_smiling_and_never_changes_while_watched() {
    assert_eq!(run(&[(true, 10.0)]), [Stage::Smile]);
    let f = Face::new();
    assert_eq!(f.mouth_weights(), [1.0, 0.0, 0.0]);
    assert_eq!(f.eyes_left(), 0.0);
    assert!(!f.e.eyes_frozen());
}

#[test]
fn changes_once_after_the_grace_and_cycles_per_stretch() {
    let out = run(&[
        (false, GRACE * 0.5),
        (true, 0.1),
        (false, GRACE + 0.05),
        (false, 30.0),
        (true, 0.1),
        (false, GRACE + 0.05),
        (true, 0.1),
        (false, GRACE + 0.05),
        (true, 0.1),
        (false, GRACE + 0.05),
    ]);
    assert_eq!(out, [
        Stage::Smile,
        Stage::Smile,
        Stage::SadAway,
        Stage::SadAway,
        Stage::SadAway,
        Stage::Angry,
        Stage::Angry,
        Stage::Smile,
        Stage::Smile,
        Stage::SadAway,
    ]);
}

#[test]
fn a_look_resets_the_grace() {
    let out = run(&[(false, GRACE * 0.9), (true, GH_DT), (false, GRACE * 0.9)]);
    assert_eq!(out, [Stage::Smile; 3]);
}

#[test]
fn a_change_crossfades_and_settles_within_the_grace() {
    let mut e = Face::new();
    for _ in 0..((GRACE + GH_DT * 1.5) / GH_DT) as u32 {
        e.step(false, GH_DT);
    }
    assert_eq!(e.e.stage, Stage::SadAway);
    let w = e.mouth_weights();
    assert!(w[0] > 0.9 && (w.iter().sum::<f32>() - 1.0).abs() < 1e-5, "just changed: {w:?}");
    assert!(e.eyes_left() < 0.1 && e.e.eyes_frozen());
    for _ in 0..((FADE * 0.5) / GH_DT) as u32 {
        e.step(false, GH_DT);
    }
    let w = e.mouth_weights();
    assert!(w[0] > 0.3 && w[1] > 0.3 && (w.iter().sum::<f32>() - 1.0).abs() < 1e-5, "mid-fade: {w:?}");
    assert!(e.eyes_left() > 0.3 && e.eyes_left() < 0.7);
    for _ in 0..((FADE * 0.6) / GH_DT) as u32 {
        e.step(false, GH_DT);
    }
    assert_eq!(e.mouth_weights(), [0.0, 1.0, 0.0]);
    assert_eq!(e.eyes_left(), 1.0);
    assert!(FADE < GRACE);
    for _ in 0..((GRACE * 2.0) / GH_DT) as u32 {
        e.step(true, GH_DT);
    }
    for _ in 0..((GRACE + FADE * 2.0) / GH_DT) as u32 {
        e.step(false, GH_DT);
    }
    assert_eq!(e.e.stage, Stage::Angry);
    assert_eq!(e.mouth_weights(), [0.0, 0.0, 1.0]);
    assert!(e.eyes_left() == 0.0 && !e.e.eyes_frozen());
}

#[test]
fn the_cycle_is_three_faces_with_a_mouth_each() {
    assert_eq!(Stage::Smile.next(), Stage::SadAway);
    assert_eq!(Stage::SadAway.next(), Stage::Angry);
    assert_eq!(Stage::Angry.next(), Stage::Smile);
    assert_eq!(
        [Stage::Smile.mouth(), Stage::SadAway.mouth(), Stage::Angry.mouth()],
        [0, 1, 2]
    );
}

type V3 = [f32; 3];

fn sub(a: V3, b: V3) -> V3 {
    [a[0] - b[0], a[1] - b[1], a[2] - b[2]]
}

fn mag(a: V3) -> f32 {
    (a[0] * a[0] + a[1] * a[1] + a[2] * a[2]).sqrt()
}

/// A gaze with the seconds the renderer keeps beside it.
struct Eyes {
    g: Gaze<V3>,
    settled: f32,
}

impl Eyes {
    fn new() -> Eyes {
        Eyes { g: Gaze::new(), settled: 0.0 }
    }

    fn step(&mut self, seen_from: Option<V3>, dt: f32) {
        if seen_from.is_some() {
            self.settled = (self.settled + dt).min(REACQUIRE);
        } else {
            self.settled = 0.0;
        }
        self.g.step(seen_from, seen_from.is_some() && self.settled >= REACQUIRE);
    }

    fn target(&self, eye: V3) -> V3 {
        let Some(anchor) = self.g.anchor else { return eye };
        let t = (self.settled / REACQUIRE).clamp(0.0, 1.0);
        let t = t * t * (3.0 - 2.0 * t);
        [
            anchor[0] + (eye[0] - anchor[0]) * t,
            anchor[1] + (eye[1] - anchor[1]) * t,
            anchor[2] + (eye[2] - anchor[2]) * t,
        ]
    }
}

#[test]
fn gaze_is_live_until_first_seen_then_remembers_and_slides() {
    let mut g = Eyes::new();
    let eye = [1.0, 1.5, 2.0];
    assert!(mag(sub(g.target(eye), eye)) < 1e-6);
    let a = [0.0, 1.5, 0.0];
    for _ in 0..((REACQUIRE * 2.0) / GH_DT) as u32 {
        g.step(Some(a), GH_DT);
    }
    g.step(None, GH_DT);
    assert!(mag(sub(g.target(eye), a)) < 1e-6);
    for _ in 0..((REACQUIRE * 0.5) / GH_DT) as u32 {
        g.step(Some(eye), GH_DT);
    }
    let mid = g.target(eye);
    let d = sub(eye, a);
    let m = sub(mid, a);
    let along = (m[0] * d[0] + m[1] * d[1] + m[2] * d[2]) / (mag(d) * mag(d));
    assert!(along > 0.3 && along < 0.7, "slide at {along}");
    for _ in 0..((REACQUIRE * 0.6) / GH_DT) as u32 {
        g.step(Some(eye), GH_DT);
    }
    assert!(mag(sub(g.target(eye), eye)) < 1e-6);
}

#[test]
fn a_short_look_is_remembered_too() {
    let mut g = Eyes::new();
    let a = [0.0, 1.5, 0.0];
    let b = [3.0, 1.5, 1.0];
    for _ in 0..((REACQUIRE * 2.0) / GH_DT) as u32 {
        g.step(Some(a), GH_DT);
    }
    g.step(None, GH_DT);
    for _ in 0..((REACQUIRE * 0.5) / GH_DT) as u32 {
        g.step(Some(b), GH_DT);
    }
    let mid = g.target(b);
    assert!(mag(sub(mid, a)) > 0.3 && mag(sub(mid, b)) > 0.3, "mid-slide at {mid:?}");
    g.step(None, GH_DT);
    assert!(mag(sub(g.target(a), b)) < 1e-6, "remembered {:?}", g.target(a));
    g.step(Some(a), GH_DT);
    assert!(mag(sub(g.target(a), b)) < 0.05);
}

#[test]
fn the_remembered_eye_is_the_anchor_or_the_viewer() {
    let mut g: Gaze<u32> = Gaze::new();
    assert_eq!(g.remembered(7), 7, "never seen: wherever the viewer is");
    g.step(Some(3), false);
    assert_eq!(g.anchor, Some(3), "the first look anchors at once");
    g.step(Some(4), false);
    assert_eq!(g.anchor, Some(3), "mid-slide the anchor stays put");
    g.step(None, false);
    assert_eq!(g.remembered(7), 4);
}

/// An emergence with how far out the key is, as the renderer keeps it.
struct Rig {
    e: Emergence,
    t: f32,
}

impl Rig {
    fn new() -> Rig {
        Rig { e: Emergence::new(), t: 0.0 }
    }

    fn step(&mut self, armed: bool, taken: bool, dt: f32) -> Option<KeyEvent> {
        let done = match self.e.phase {
            KeyPhase::Emerging => self.t + dt >= EMERGE,
            KeyPhase::Sinking => self.t - dt <= 0.0,
            _ => false,
        };
        let (ev, ramp) = self.e.step(armed, taken, done);
        self.t = match ramp {
            Ramp::Hold => self.t,
            Ramp::Full => EMERGE,
            Ramp::Empty => 0.0,
            Ramp::Rise => (self.t + dt).min(EMERGE),
            Ramp::Fall => (self.t - dt).max(0.0),
        };
        ev
    }

    fn blend(&self) -> f32 {
        self.t / EMERGE
    }
}

fn emerge(script: &[(bool, bool, f32)]) -> (Vec<KeyEvent>, Rig) {
    let mut e = Rig::new();
    let mut events = Vec::new();
    for &(armed, taken, secs) in script {
        for _ in 0..(secs / GH_DT).round() as u32 {
            events.extend(e.step(armed, taken, GH_DT));
        }
    }
    (events, e)
}

#[test]
fn the_key_comes_out_on_arming_and_sinks_back_on_leaving() {
    let (ev, e) = emerge(&[(false, false, 1.0)]);
    assert!(ev.is_empty() && e.e.phase == KeyPhase::Painted && e.blend() == 0.0);
    let (ev, e) = emerge(&[(true, false, EMERGE * 0.5)]);
    assert_eq!(ev, [KeyEvent::Spawn]);
    assert_eq!(e.e.phase, KeyPhase::Emerging);
    assert!((e.blend() - 0.5).abs() < 0.02 && e.e.floating());
    let (ev, e) = emerge(&[(true, false, EMERGE + 0.1)]);
    assert_eq!(ev, [KeyEvent::Spawn]);
    assert!(e.e.phase == KeyPhase::Out && e.blend() == 1.0);
    let (ev, e) = emerge(&[(true, false, EMERGE + 0.1), (false, false, EMERGE * 0.5)]);
    assert_eq!(ev, [KeyEvent::Spawn]);
    assert!(e.e.phase == KeyPhase::Sinking && (e.blend() - 0.5).abs() < 0.02);
    let (ev, e) = emerge(&[(true, false, EMERGE + 0.1), (false, false, EMERGE + 0.1)]);
    assert_eq!(ev, [KeyEvent::Spawn, KeyEvent::Remove]);
    assert!(e.e.phase == KeyPhase::Painted && e.blend() == 0.0 && !e.e.floating());
    let (ev, e) = emerge(&[
        (true, false, 0.2),
        (false, false, 0.1),
        (true, false, EMERGE),
        (false, false, 1.0),
        (true, false, 0.1),
    ]);
    assert_eq!(ev, [KeyEvent::Spawn, KeyEvent::Remove, KeyEvent::Spawn]);
    assert_eq!(e.e.phase, KeyPhase::Emerging);
}

#[test]
fn taking_the_key_is_final() {
    let (ev, e) = emerge(&[
        (true, false, EMERGE + 0.1),
        (true, true, 0.1),
        (false, true, 2.0),
        (true, true, 0.1),
    ]);
    assert_eq!(ev, [KeyEvent::Spawn]);
    assert!(e.e.phase == KeyPhase::Taken && e.blend() == 1.0 && !e.e.floating());
    let (ev, e) = emerge(&[(true, false, 0.1), (true, true, GH_DT)]);
    assert_eq!(ev, [KeyEvent::Spawn]);
    assert!(e.e.phase == KeyPhase::Taken && e.blend() == 1.0);
    let (ev, e) = emerge(&[(true, false, EMERGE), (false, false, 0.1), (false, true, 1.0)]);
    assert_eq!(ev, [KeyEvent::Spawn]);
    assert_eq!(e.e.phase, KeyPhase::Taken);
}

#[test]
fn the_key_glints_only_while_it_can_still_be_taken() {
    let mut e = Emergence::new();
    assert!(e.glint(true));
    assert!(!e.glint(false));
    let _ = e.step(true, true, false);
    assert!(!e.glint(true));
}

#[test]
fn each_painting_asks_every_tenth_step() {
    let mut steps = 3;
    let mut asked = Vec::new();
    for i in 0..25 {
        let (ask, next) = watch_step(steps);
        if ask {
            asked.push(i);
        }
        steps = next;
    }
    assert_eq!(asked, vec![7, 17]);
    assert_eq!(WATCH_EVERY, 10);
    assert_eq!(watch_step(u32::MAX), (false, 0), "the counter wraps");
}
