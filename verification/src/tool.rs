//! The exploration tools: eight handheld instruments the player can take, pocket and use.
//! Here are what each one is called, what it says on the hint line, and what the E press
//! does to it, and the standing-offer channel through which a held tool claims the press.
//!
//! Unlike the key's offer, a tool's is a standing answer: it stays as last set until whoever
//! owns it withdraws it, so a frame that runs no fixed step still reads the last true answer.
//! Every way of leaving the hand withdraws the offer and any pending press, and switches the
//! tool off.

use vstd::prelude::*;
use crate::audio::Sfx;
use crate::text::{decimal, decimal_string};

verus! {

/// Where the tools come from: the exploration pack's model file.
pub const MODEL: &'static str = "Meshes/exploration_tools.glb";

#[derive(Clone, Copy, PartialEq, Eq, Debug, Structural)]
pub enum ToolKind {
    Flashlight,
    PocketLight,
    Emf,
    Thermometer,
    SpiritBox,
    ThermalCamera,
    PhotoCamera,
    Recorder,
}

impl ToolKind {
    /// The part of the model each tool's mesh is.
    pub open spec fn part_name(self) -> &'static str {
        match self {
            ToolKind::Flashlight => "Flashlight",
            ToolKind::PocketLight => "Flashlight_Poquet",
            ToolKind::Emf => "EMF_Detector",
            ToolKind::Thermometer => "Thermometer",
            ToolKind::SpiritBox => "Spirit_Box",
            ToolKind::ThermalCamera => "Thermal_Camera",
            ToolKind::PhotoCamera => "Photo_Camera",
            ToolKind::Recorder => "Voice_Recorder",
        }
    }

    /// The word the inventory row prints for each tool.
    pub open spec fn label_text(self) -> &'static str {
        match self {
            ToolKind::Flashlight => "TORCH",
            ToolKind::PocketLight => "PENLIGHT",
            ToolKind::Emf => "EMF",
            ToolKind::Thermometer => "THERMO",
            ToolKind::SpiritBox => "SPIRITBOX",
            ToolKind::ThermalCamera => "THERMAL",
            ToolKind::PhotoCamera => "CAMERA",
            ToolKind::Recorder => "RECORDER",
        }
    }

    /// The crosshair prompt on a loose tool.
    pub open spec fn take_text(self) -> &'static str {
        match self {
            ToolKind::Flashlight => "E  TAKE THE FLASHLIGHT",
            ToolKind::PocketLight => "E  TAKE THE PENLIGHT",
            ToolKind::Emf => "E  TAKE THE EMF READER",
            ToolKind::Thermometer => "E  TAKE THE THERMOMETER",
            ToolKind::SpiritBox => "E  TAKE THE SPIRIT BOX",
            ToolKind::ThermalCamera => "E  TAKE THE THERMAL CAMERA",
            ToolKind::PhotoCamera => "E  TAKE THE CAMERA",
            ToolKind::Recorder => "E  TAKE THE RECORDER",
        }
    }

    /// The prompt on a held tool that is off.
    pub open spec fn on_text(self) -> &'static str {
        match self {
            ToolKind::Flashlight => "E  SWITCH ON THE FLASHLIGHT",
            ToolKind::PocketLight => "E  SWITCH ON THE PENLIGHT",
            ToolKind::Emf => "E  SWITCH ON THE EMF READER",
            ToolKind::Thermometer => "E  READ THE THERMOMETER",
            ToolKind::SpiritBox => "E  SWITCH ON THE SPIRIT BOX",
            ToolKind::ThermalCamera => "E  SWITCH ON THE THERMAL CAMERA",
            ToolKind::PhotoCamera => "E  TAKE A PHOTO",
            ToolKind::Recorder => "E  START RECORDING",
        }
    }

    /// The prompt on a held tool that is on.
    pub open spec fn off_text(self) -> &'static str {
        match self {
            ToolKind::Flashlight => "E  SWITCH OFF THE FLASHLIGHT",
            ToolKind::PocketLight => "E  SWITCH OFF THE PENLIGHT",
            _ => "E  SWITCH OFF",
        }
    }

    /// Whether the tool throws a beam when it is on.
    pub open spec fn is_light(self) -> bool {
        self == ToolKind::Flashlight || self == ToolKind::PocketLight
    }

    /// Every kind, in the model's order.
    pub fn all() -> (v: Vec<ToolKind>)
        ensures
            v@ == seq![
                ToolKind::Flashlight,
                ToolKind::PocketLight,
                ToolKind::Emf,
                ToolKind::Thermometer,
                ToolKind::SpiritBox,
                ToolKind::ThermalCamera,
                ToolKind::PhotoCamera,
                ToolKind::Recorder,
            ],
    {
        let v = vec![
            ToolKind::Flashlight,
            ToolKind::PocketLight,
            ToolKind::Emf,
            ToolKind::Thermometer,
            ToolKind::SpiritBox,
            ToolKind::ThermalCamera,
            ToolKind::PhotoCamera,
            ToolKind::Recorder,
        ];
        assert(v@ =~= seq![
            ToolKind::Flashlight,
            ToolKind::PocketLight,
            ToolKind::Emf,
            ToolKind::Thermometer,
            ToolKind::SpiritBox,
            ToolKind::ThermalCamera,
            ToolKind::PhotoCamera,
            ToolKind::Recorder,
        ]);
        v
    }

    pub fn part(self) -> (r: &'static str)
        ensures
            r == self.part_name(),
    {
        match self {
            ToolKind::Flashlight => "Flashlight",
            ToolKind::PocketLight => "Flashlight_Poquet",
            ToolKind::Emf => "EMF_Detector",
            ToolKind::Thermometer => "Thermometer",
            ToolKind::SpiritBox => "Spirit_Box",
            ToolKind::ThermalCamera => "Thermal_Camera",
            ToolKind::PhotoCamera => "Photo_Camera",
            ToolKind::Recorder => "Voice_Recorder",
        }
    }

    pub fn label(self) -> (r: &'static str)
        ensures
            r == self.label_text(),
    {
        match self {
            ToolKind::Flashlight => "TORCH",
            ToolKind::PocketLight => "PENLIGHT",
            ToolKind::Emf => "EMF",
            ToolKind::Thermometer => "THERMO",
            ToolKind::SpiritBox => "SPIRITBOX",
            ToolKind::ThermalCamera => "THERMAL",
            ToolKind::PhotoCamera => "CAMERA",
            ToolKind::Recorder => "RECORDER",
        }
    }

    pub fn take_hint(self) -> (r: &'static str)
        ensures
            r == self.take_text(),
    {
        match self {
            ToolKind::Flashlight => "E  TAKE THE FLASHLIGHT",
            ToolKind::PocketLight => "E  TAKE THE PENLIGHT",
            ToolKind::Emf => "E  TAKE THE EMF READER",
            ToolKind::Thermometer => "E  TAKE THE THERMOMETER",
            ToolKind::SpiritBox => "E  TAKE THE SPIRIT BOX",
            ToolKind::ThermalCamera => "E  TAKE THE THERMAL CAMERA",
            ToolKind::PhotoCamera => "E  TAKE THE CAMERA",
            ToolKind::Recorder => "E  TAKE THE RECORDER",
        }
    }

    pub fn on_hint(self) -> (r: &'static str)
        ensures
            r == self.on_text(),
    {
        match self {
            ToolKind::Flashlight => "E  SWITCH ON THE FLASHLIGHT",
            ToolKind::PocketLight => "E  SWITCH ON THE PENLIGHT",
            ToolKind::Emf => "E  SWITCH ON THE EMF READER",
            ToolKind::Thermometer => "E  READ THE THERMOMETER",
            ToolKind::SpiritBox => "E  SWITCH ON THE SPIRIT BOX",
            ToolKind::ThermalCamera => "E  SWITCH ON THE THERMAL CAMERA",
            ToolKind::PhotoCamera => "E  TAKE A PHOTO",
            ToolKind::Recorder => "E  START RECORDING",
        }
    }

    pub fn off_hint(self) -> (r: &'static str)
        ensures
            r == self.off_text(),
    {
        match self {
            ToolKind::Flashlight => "E  SWITCH OFF THE FLASHLIGHT",
            ToolKind::PocketLight => "E  SWITCH OFF THE PENLIGHT",
            _ => "E  SWITCH OFF",
        }
    }

    /// Whether the tool throws a beam when it is on: the two lights.
    pub fn light(self) -> (r: bool)
        ensures
            r == self.is_light(),
    {
        match self {
            ToolKind::Flashlight | ToolKind::PocketLight => true,
            _ => false,
        }
    }
}

/// What the spirit box says, when it says anything: a small pool on purpose.
pub open spec fn word_table() -> Seq<&'static str> {
    seq!["COLD", "BEHIND", "STAY", "DOOR", "BELOW", "NO", "HELLO", "LEAVE"]
}

/// [`word_table`], built.
pub fn words() -> (v: Vec<&'static str>)
    ensures
        v@ == word_table(),
{
    let v = vec!["COLD", "BEHIND", "STAY", "DOOR", "BELOW", "NO", "HELLO", "LEAVE"];
    assert(v@ =~= word_table());
    v
}

/// The spirit box's next word after word `ix`, given the clock's `pick`: the clock chooses,
/// and the box only remembers not to repeat itself.
pub fn next_word(ix: usize, pick: usize) -> (r: usize)
    requires
        ix < 8,
    ensures
        r == (ix + 1 + pick % 7) % 8,
        r < 8,
        r != ix,
{
    (ix + 1 + pick % 7) % 8
}

/// The EMF reader's line for `bars` lit bars of five.
pub fn emf_line(bars: usize) -> (r: String)
    requires
        bars <= 5,
    ensures
        r@ == "EMF  "@ + Seq::new(5, |i: int| if i < bars {
            '#'
        } else {
            '-'
        }),
{
    let mut s = String::new();
    s.append("EMF  ");
    let mut i: usize = 0;
    while i < 5
        invariant
            i <= 5,
            bars <= 5,
            s@ == "EMF  "@ + Seq::new(i as nat, |j: int| if j < bars {
                '#'
            } else {
                '-'
            }),
        decreases 5 - i,
    {
        proof {
            reveal_strlit("#");
            reveal_strlit("-");
        }
        if i < bars {
            s.append("#");
        } else {
            s.append("-");
        }
        assert(Seq::new((i + 1) as nat, |j: int| if j < bars {
            '#'
        } else {
            '-'
        }) =~= Seq::new(i as nat, |j: int| if j < bars {
            '#'
        } else {
            '-'
        }).push(if i < bars {
            '#'
        } else {
            '-'
        }));
        i += 1;
    }
    s
}

/// The recorder's line for `secs` whole seconds of tape: minutes and seconds, each at least
/// two digits.
pub fn rec_line(secs: u32) -> (r: String)
    ensures
        r@ == "REC  "@ + two_digits((secs / 60) as nat) + ":"@ + two_digits((secs % 60) as nat),
{
    let mut s = String::new();
    s.append("REC  ");
    append_two_digits(&mut s, secs / 60);
    s.append(":");
    append_two_digits(&mut s, secs % 60);
    s
}

/// `n` as `{:02}` writes it, on the end of `s`.
fn append_two_digits(s: &mut String, n: u32)
    ensures
        final(s)@ == old(s)@ + two_digits(n as nat),
{
    if n < 10 {
        proof {
            reveal_strlit("0");
        }
        s.append("0");
    }
    let d = decimal_string(n as u64);
    s.append(d.as_str());
}

/// The spirit box's line: the word it is on while the presence is near, static otherwise.
pub fn spirit_line(word: Option<usize>) -> (r: String)
    requires
        word matches Some(w) ==> w < 8,
    ensures
        r@ == match word {
            Some(w) => "SPIRIT BOX  \""@ + word_table()[w as int]@ + "\""@,
            None => "SPIRIT BOX  ..STATIC.."@,
        },
{
    match word {
        Some(w) => {
            let v = words();
            let mut s = String::new();
            s.append("SPIRIT BOX  \"");
            s.append(v[w]);
            s.append("\"");
            s
        },
        None => {
            let mut s = String::new();
            s.append("SPIRIT BOX  ..STATIC..");
            s
        },
    }
}

/// The channel between the held tool and the engine, and where the scene's presence last
/// stood (`P` is a position, in whatever form the renderer keeps one).
pub struct ToolChannel<P> {
    /// Whether the held tool wants the frame's E press: a standing answer.
    pub wants_use: bool,
    /// The frame's E, handed over by the engine; taken by the tool's next step.
    pub pressed: bool,
    /// Where the scene's presence last stood, if the scene has one.
    pub presence: Option<P>,
}

impl<P> ToolChannel<P> {
    /// No offer, no press, no presence.
    pub fn new() -> (c: ToolChannel<P>)
        ensures
            !c.wants_use && !c.pressed && c.presence is None,
    {
        ToolChannel { wants_use: false, pressed: false, presence: None }
    }
}

/// Whether the held tool wants the frame's E press. Read, not consumed: the offer stands
/// until its owner withdraws it.
pub fn wants_use<P>(c: &ToolChannel<P>) -> (r: bool)
    ensures
        r == c.wants_use,
{
    c.wants_use
}

/// Hand the frame's E press to the tool.
pub fn press<P>(c: &mut ToolChannel<P>)
    ensures
        final(c).pressed,
        final(c).wants_use == old(c).wants_use,
        final(c).presence == old(c).presence,
{
    c.pressed = true;
}

/// The tool's side: make or withdraw the offer.
pub fn offer_use<P>(c: &mut ToolChannel<P>, on: bool)
    ensures
        final(c).wants_use == on,
        final(c).pressed == old(c).pressed,
        final(c).presence == old(c).presence,
{
    c.wants_use = on;
}

/// The tool's side: take a press the engine handed over.
pub fn take_press<P>(c: &mut ToolChannel<P>) -> (r: bool)
    ensures
        r == old(c).pressed,
        !final(c).pressed,
        final(c).wants_use == old(c).wants_use,
        final(c).presence == old(c).presence,
{
    let r = c.pressed;
    c.pressed = false;
    r
}

/// The walker's step says where it stands; the instruments read it.
pub fn report_presence<P>(c: &mut ToolChannel<P>, pos: P)
    ensures
        final(c).presence == Some(pos),
        final(c).wants_use == old(c).wants_use,
        final(c).pressed == old(c).pressed,
{
    c.presence = Some(pos);
}

/// Where the presence last stood.
pub fn presence<P: Copy>(c: &ToolChannel<P>) -> (r: Option<P>)
    ensures
        r == c.presence,
{
    c.presence
}

/// Scene-load hygiene: the last scene's presence and any offer or press left by a tool held
/// across the load are dropped.
pub fn reset<P>(c: &mut ToolChannel<P>)
    ensures
        final(c).presence is None,
        !final(c).wants_use,
        !final(c).pressed,
{
    c.presence = None;
    offer_use(c, false);
    take_press(c);
}

/// What a held tool's press did.
#[derive(Clone, Copy, PartialEq, Eq, Debug, Structural)]
pub enum ToolPress {
    /// Not held, or no press.
    Nothing,
    /// The camera took a photo: its count went up and the flash fires.
    Photo,
    /// Any other tool clicked: it is now on, or now off.
    Switched(bool),
}

impl ToolPress {
    /// The sound the press makes: the shutter, or the switch's click.
    pub fn sound(self) -> (r: Option<Sfx>)
        ensures
            r == match self {
                ToolPress::Nothing => None,
                ToolPress::Photo => Some(Sfx::CameraSnap),
                ToolPress::Switched(_) => Some(Sfx::ToolClick),
            },
    {
        match self {
            ToolPress::Nothing => None,
            ToolPress::Photo => Some(Sfx::CameraSnap),
            ToolPress::Switched(_) => Some(Sfx::ToolClick),
        }
    }
}

/// A tool's own state: whether it is in hand, whether it is on, and how many photos it has
/// taken -- which survive pocketing.
pub struct ToolState {
    pub kind: ToolKind,
    pub held: bool,
    pub active: bool,
    pub photos: u32,
}

impl ToolState {
    /// A fresh tool of `kind`, lying loose and off.
    pub fn new(kind: ToolKind) -> (t: ToolState)
        ensures
            t == (ToolState { kind, held: false, active: false, photos: 0 }),
    {
        ToolState { kind, held: false, active: false, photos: 0 }
    }

    pub fn on_grab(&mut self)
        ensures
            *final(self) == (ToolState { held: true, ..*old(self) }),
    {
        self.held = true;
    }

    /// Out of the hand, by release or by stowing: off, no offer, no press pending.
    pub fn leave_hand<P>(&mut self, c: &mut ToolChannel<P>)
        ensures
            *final(self) == (ToolState { held: false, active: false, ..*old(self) }),
            !final(c).wants_use,
            !final(c).pressed,
            final(c).presence == old(c).presence,
    {
        self.held = false;
        self.active = false;
        offer_use(c, false);
        take_press(c);
    }

    /// One step. A loose tool leaves the channel alone -- the offer is the held tool's to
    /// withdraw. A held one always offers, and takes the frame's press: the camera counts a
    /// photo, anything else switches.
    pub fn step<P>(&mut self, c: &mut ToolChannel<P>) -> (r: ToolPress)
        requires
            !(old(self).held && old(c).pressed && old(self).kind == ToolKind::PhotoCamera
                && old(self).photos == u32::MAX),
        ensures
            !old(self).held ==> r == ToolPress::Nothing && *final(self) == *old(self) && *final(c)
                == *old(c),
            old(self).held ==> {
                &&& final(c).wants_use
                &&& !final(c).pressed
                &&& final(c).presence == old(c).presence
                &&& if !old(c).pressed {
                    r == ToolPress::Nothing && *final(self) == *old(self)
                } else if old(self).kind == ToolKind::PhotoCamera {
                    r == ToolPress::Photo && *final(self) == ToolState {
                        photos: (old(self).photos + 1) as u32,
                        ..*old(self)
                    }
                } else {
                    r == ToolPress::Switched(!old(self).active) && *final(self) == ToolState {
                        active: !old(self).active,
                        ..*old(self)
                    }
                }
            },
    {
        if !self.held {
            return ToolPress::Nothing;
        }
        offer_use(c, true);
        let pressed = take_press(c);
        if !pressed {
            return ToolPress::Nothing;
        }
        match self.kind {
            ToolKind::PhotoCamera => {
                self.photos = self.photos + 1;
                ToolPress::Photo
            },
            _ => {
                self.active = !self.active;
                ToolPress::Switched(self.active)
            },
        }
    }
}

impl ToolState {
    /// The line a held tool puts on the hint line: its `reading` while it runs (an instrument
    /// with none says what E does instead), the photo count on a camera that has taken any,
    /// and otherwise what E will do.
    pub fn hint_line(&self, reading: &str) -> (r: String)
        ensures
            r@ == if self.active {
                if reading@.len() == 0 {
                    self.kind.off_text()@
                } else {
                    reading@
                }
            } else if self.kind == ToolKind::PhotoCamera && self.photos > 0 {
                "E  TAKE A PHOTO  ("@ + two_digits(self.photos as nat) + " TAKEN)"@
            } else {
                self.kind.on_text()@
            },
    {
        if self.active {
            let mut s = String::new();
            if reading.is_empty() {
                s.append(self.kind.off_hint());
            } else {
                s.append(reading);
            }
            s
        } else if self.kind == ToolKind::PhotoCamera && self.photos > 0 {
            photo_prompt(self.photos)
        } else {
            let mut s = String::new();
            s.append(self.kind.on_hint());
            s
        }
    }
}

/// A count as `{:02}` writes it: at least two digits.
pub open spec fn two_digits(n: nat) -> Seq<char> {
    if n < 10 {
        seq!['0'] + decimal(n)
    } else {
        decimal(n)
    }
}

/// The held camera's prompt once it has taken photos.
pub fn photo_prompt(photos: u32) -> (r: String)
    ensures
        r@ == "E  TAKE A PHOTO  ("@ + two_digits(photos as nat) + " TAKEN)"@,
{
    let mut s = String::new();
    s.append("E  TAKE A PHOTO  (");
    append_two_digits(&mut s, photos);
    s.append(" TAKEN)");
    s
}

} // verus!
