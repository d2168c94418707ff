//! The scene registry: one table of names and constructors, in the order the game presents
//! them. The level-select menu lists whatever is here, and the two scenes the game opens on
//! are looked up in it by name.

use vstd::prelude::*;
use vstd::string::StringSliceAdditionalSpecFns;

verus! {

broadcast use vstd::utf8::encode_utf8_decode_utf8;

/// Which level a registry entry builds, and with what: the scene types themselves live with
/// the renderer, and each takes at most the one number the second level's room count is.
#[derive(Clone, Copy, PartialEq, Eq, Debug)]
pub enum Level {
    Level1,
    /// The ring of rooms, with this many rooms in it.
    Level2(u32),
    Level3,
    Level4,
    Level5,
    Level6,
    Level7,
    Level8,
    Level9,
    Level10,
    Level11,
    Level12,
    Level13,
    Level14,
    Level15,
    Level16,
    Level17,
    Level18,
    Level30,
    Level31,
    Level32,
}

pub struct SceneEntry {
    /// What the level-select menu shows.
    pub name: &'static str,
    /// The scene it builds.
    pub level: Level,
}

impl SceneEntry {
    /// The constructor this entry names, and its argument.
    pub fn make(&self) -> (r: Level)
        ensures
            r == self.level,
    {
        self.level
    }
}

/// How many scenes the registry holds.
pub const SCENE_COUNT: usize = 22;

/// Every scene: the engine's first seven, then the newer levels in the order they were built.
pub open spec fn scene_table() -> Seq<SceneEntry> {
    seq![
        SceneEntry { name: "Tunnels", level: Level::Level1 },
        SceneEntry { name: "Three Rooms", level: Level::Level2(3) },
        SceneEntry { name: "Six Rooms", level: Level::Level2(6) },
        SceneEntry { name: "Pillar Rooms", level: Level::Level3 },
        SceneEntry { name: "Sloped Tunnel", level: Level::Level4 },
        SceneEntry { name: "Scaling Tunnel", level: Level::Level5 },
        SceneEntry { name: "Floorplan", level: Level::Level6 },
        SceneEntry { name: "Perspective Gallery", level: Level::Level7 },
        SceneEntry { name: "Penrose Ascent", level: Level::Level8 },
        SceneEntry { name: "Compound", level: Level::Level9 },
        SceneEntry { name: "Unobserved", level: Level::Level10 },
        SceneEntry { name: "Anamorphic Chamber", level: Level::Level11 },
        SceneEntry { name: "The Painted Cube", level: Level::Level12 },
        SceneEntry { name: "Relativity", level: Level::Level13 },
        SceneEntry { name: "Meadow", level: Level::Level14 },
        SceneEntry { name: "Intro", level: Level::Level15 },
        SceneEntry { name: "Backrooms", level: Level::Level16 },
        SceneEntry { name: "Pool Rooms", level: Level::Level17 },
        SceneEntry { name: "Overgrown", level: Level::Level18 },
        SceneEntry { name: "The Ring", level: Level::Level30 },
        SceneEntry { name: "Liminal Neighborhood", level: Level::Level31 },
        SceneEntry { name: "Open House", level: Level::Level32 },
    ]
}

/// The registry, in order.
pub fn scenes() -> (v: Vec<SceneEntry>)
    ensures
        v@ == scene_table(),
        v.len() == SCENE_COUNT,
{
    let mut v: Vec<SceneEntry> = Vec::new();
    v.push(SceneEntry { name: "Tunnels", level: Level::Level1 });
    v.push(SceneEntry { name: "Three Rooms", level: Level::Level2(3) });
    v.push(SceneEntry { name: "Six Rooms", level: Level::Level2(6) });
    v.push(SceneEntry { name: "Pillar Rooms", level: Level::Level3 });
    v.push(SceneEntry { name: "Sloped Tunnel", level: Level::Level4 });
    v.push(SceneEntry { name: "Scaling Tunnel", level: Level::Level5 });
    v.push(SceneEntry { name: "Floorplan", level: Level::Level6 });
    v.push(SceneEntry { name: "Perspective Gallery", level: Level::Level7 });
    v.push(SceneEntry { name: "Penrose Ascent", level: Level::Level8 });
    v.push(SceneEntry { name: "Compound", level: Level::Level9 });
    v.push(SceneEntry { name: "Unobserved", level: Level::Level10 });
    v.push(SceneEntry { name: "Anamorphic Chamber", level: Level::Level11 });
    v.push(SceneEntry { name: "The Painted Cube", level: Level::Level12 });
    v.push(SceneEntry { name: "Relativity", level: Level::Level13 });
    v.push(SceneEntry { name: "Meadow", level: Level::Level14 });
    v.push(SceneEntry { name: "Intro", level: Level::Level15 });
    v.push(SceneEntry { name: "Backrooms", level: Level::Level16 });
    v.push(SceneEntry { name: "Pool Rooms", level: Level::Level17 });
    v.push(SceneEntry { name: "Overgrown", level: Level::Level18 });
    v.push(SceneEntry { name: "The Ring", level: Level::Level30 });
    v.push(SceneEntry { name: "Liminal Neighborhood", level: Level::Level31 });
    v.push(SceneEntry { name: "Open House", level: Level::Level32 });
    assert(v@ =~= scene_table());
    v
}

/// The name of entry `i`.
pub fn scene_name(i: usize) -> (r: &'static str)
    requires
        i < SCENE_COUNT,
    ensures
        r == scene_table()[i as int].name,
{
    let v = scenes();
    v[i].name
}

/// Index of the scene where NEW GAME begins: the Backrooms.
pub const INTRO: usize = 16;

/// Index of the scene the title screen runs live behind itself: the Intro.
pub const TITLE: usize = 15;

/// `a == b`, walked byte by byte.
pub fn str_eq(a: &str, b: &str) -> (r: bool)
    ensures
        r == (a@ == b@),
{
    let x = a.as_bytes();
    let y = b.as_bytes();
    if x.len() != y.len() {
        proof {
            if a@ == b@ {
                assert(a.spec_bytes() == b.spec_bytes());
            }
        }
        return false;
    }
    let mut i: usize = 0;
    while i < x.len()
        invariant
            x@ == a.spec_bytes(),
            y@ == b.spec_bytes(),
            x.len() == y.len(),
            0 <= i <= x.len(),
            forall|j: int| 0 <= j < i ==> x@[j] == y@[j],
        decreases x.len() - i,
    {
        if x[i] != y[i] {
            proof {
                if a@ == b@ {
                    assert(a.spec_bytes() == b.spec_bytes());
                }
            }
            return false;
        }
        i += 1;
    }
    assert(x@ =~= y@);
    assert(vstd::utf8::decode_utf8(a.spec_bytes()) == a@);
    assert(vstd::utf8::decode_utf8(b.spec_bytes()) == b@);
    true
}

/// The registry index of the scene called `name`: the first entry with that name, or `None`
/// if no entry has it.
pub fn index_of(name: &str) -> (r: Option<usize>)
    ensures
        match r {
            Some(i) => i < SCENE_COUNT && scene_table()[i as int].name@ == name@ && forall|j: int|
                0 <= j < i ==> scene_table()[j].name@ != name@,
            None => forall|j: int| 0 <= j < SCENE_COUNT ==> scene_table()[j].name@ != name@,
        },
{
    let table = scenes();
    let mut i: usize = 0;
    while i < SCENE_COUNT
        invariant
            0 <= i <= SCENE_COUNT,
            table@ == scene_table(),
            forall|j: int| 0 <= j < i ==> scene_table()[j].name@ != name@,
        decreases SCENE_COUNT - i,
    {
        if str_eq(table[i].name, name) {
            return Some(i);
        }
        i += 1;
    }
    None
}

/// Every entry has a name, no two entries share one, and the two scenes the game opens on
/// are where [`INTRO`] and [`TITLE`] say.
pub proof fn lemma_registry_names()
    ensures
        forall|i: int| 0 <= i < SCENE_COUNT ==> #[trigger] scene_table()[i].name@.len() > 0,
        forall|i: int, j: int|
            0 <= i < SCENE_COUNT && 0 <= j < SCENE_COUNT && i != j ==> #[trigger] scene_table()[i].name@
                != #[trigger] scene_table()[j].name@,
        scene_table()[INTRO as int].name@ == "Backrooms"@,
        scene_table()[TITLE as int].name@ == "Intro"@,
        INTRO != TITLE,
{
    reveal_strlit("Tunnels");
    reveal_strlit("Three Rooms");
    reveal_strlit("Six Rooms");
    reveal_strlit("Pillar Rooms");
    reveal_strlit("Sloped Tunnel");
    reveal_strlit("Scaling Tunnel");
    reveal_strlit("Floorplan");
    reveal_strlit("Perspective Gallery");
    reveal_strlit("Penrose Ascent");
    reveal_strlit("Compound");
    reveal_strlit("Unobserved");
    reveal_strlit("Anamorphic Chamber");
    reveal_strlit("The Painted Cube");
    reveal_strlit("Relativity");
    reveal_strlit("Meadow");
    reveal_strlit("Intro");
    reveal_strlit("Backrooms");
    reveal_strlit("Pool Rooms");
    reveal_strlit("Overgrown");
    reveal_strlit("The Ring");
    reveal_strlit("Liminal Neighborhood");
    reveal_strlit("Open House");
    let t = scene_table();
    assert forall|i: int, j: int|
        0 <= i < SCENE_COUNT && 0 <= j < SCENE_COUNT && i != j implies #[trigger] t[i].name@
        != #[trigger] t[j].name@ by {
        if t[i].name@ == t[j].name@ {
            assert(t[i].name@.len() == t[j].name@.len());
            assert(t[i].name@[0] == t[j].name@[0]);
            assert(t[i].name@[1] == t[j].name@[1]);
            assert(t[i].name@[2] == t[j].name@[2]);
        }
    }
}

} // verus!
