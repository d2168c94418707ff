//! Player-facing settings: two sensitivity notches and the mute flag.

use vstd::prelude::*;
use crate::text::{
    all_digits, chars_of, decimal, digit, digits_value, find_char, index_of, is_ws,
    lemma_decimal_parses_back, lemma_index_of_bound, parse_i32, parse_i32_range, range_eq, trim,
    trim_bounds, trim_end, trim_start,
};

verus! {

/// Number of sensitivity notches.
pub const LEVELS: i32 = 10;
/// The notch that means "unchanged": a sensitivity multiplier of exactly one.
pub const DEFAULT_LEVEL: i32 = 5;

/// A level pulled onto the ladder `1..=LEVELS`.
pub open spec fn clamp_level(v: int) -> int {
    if v < 1 {
        1
    } else if v > LEVELS {
        LEVELS as int
    } else {
        v
    }
}

/// The three preferences, and whether they changed since the last write.
pub struct Settings {
    pub mouse: i32,
    pub pad: i32,
    pub muted: bool,
    pub dirty: bool,
}

impl Settings {
    /// Both levels are on the ladder.
    pub open spec fn wf(&self) -> bool {
        1 <= self.mouse <= LEVELS && 1 <= self.pad <= LEVELS
    }

    /// The defaults a player who never opens the menu plays with.
    pub fn new() -> (s: Settings)
        ensures
            s.wf(),
            s.mouse == DEFAULT_LEVEL,
            s.pad == DEFAULT_LEVEL,
            !s.muted,
            !s.dirty,
    {
        Settings { mouse: DEFAULT_LEVEL, pad: DEFAULT_LEVEL, muted: false, dirty: false }
    }
}

/// `v` clamped onto the ladder.
pub fn clamp(v: i32) -> (r: i32)
    ensures
        r == clamp_level(v as int),
{
    if v < 1 {
        1
    } else if v > LEVELS {
        LEVELS
    } else {
        v
    }
}

/// `level` moved by `delta` notches and clamped onto the ladder, for every `delta`: a nudge
/// far past either end stops there rather than overflowing.
pub fn nudged(level: i32, delta: i32) -> (r: i32)
    requires
        1 <= level <= LEVELS,
    ensures
        r == clamp_level(level + delta),
{
    if delta > LEVELS {
        LEVELS
    } else if delta < -LEVELS {
        1
    } else {
        clamp(level + delta)
    }
}

/// Whether `v` is the word `true` in any mix of ASCII case (`str::eq_ignore_ascii_case`).
pub open spec fn is_true_word(v: Seq<char>) -> bool {
    &&& v.len() == 4
    &&& (v[0] == 't' || v[0] == 'T')
    &&& (v[1] == 'r' || v[1] == 'R')
    &&& (v[2] == 'u' || v[2] == 'U')
    &&& (v[3] == 'e' || v[3] == 'E')
}

/// What one line of the settings file does to `s`: blank lines, `#` comments, lines with no
/// `=` and unknown keys change nothing; a sensitivity takes a parsable `i32`, clamped onto the
/// ladder, and keeps the old value otherwise; `muted` is on for `1` or `true`, off for anything
/// else.
pub open spec fn apply_line(s: Settings, line: Seq<char>) -> Settings {
    let l = trim(line);
    let k = index_of(l, '=');
    let key = trim(l.subrange(0, k as int));
    let value = trim(l.subrange(k + 1int, l.len() as int));
    if l.len() == 0 || l[0] == '#' || k >= l.len() {
        s
    } else if key == "mouse_sensitivity"@ {
        match parse_i32(value) {
            Some(v) => Settings { mouse: clamp_level(v as int) as i32, ..s },
            None => s,
        }
    } else if key == "pad_sensitivity"@ {
        match parse_i32(value) {
            Some(v) => Settings { pad: clamp_level(v as int) as i32, ..s },
            None => s,
        }
    } else if key == "muted"@ {
        Settings { muted: value == "1"@ || is_true_word(value), ..s }
    } else {
        s
    }
}

/// What a whole settings file does to `s`: each of its lines, split at `\n`, in order.
pub open spec fn apply_text(s: Settings, t: Seq<char>) -> Settings
    decreases t.len(),
{
    let k = index_of(t, '\n');
    let s2 = apply_line(s, t.subrange(0, k as int));
    if k < t.len() {
        apply_text(s2, t.subrange(k + 1int, t.len() as int))
    } else {
        s2
    }
}

/// Apply one line, `cs[a..b]`, to `s`.
fn apply_line_exec(s: &mut Settings, cs: &Vec<char>, a: usize, b: usize)
    requires
        a <= b <= cs.len(),
        old(s).wf(),
    ensures
        *final(s) == apply_line(*old(s), cs@.subrange(a as int, b as int)),
        final(s).wf(),
{
    let ghost line = cs@.subrange(a as int, b as int);
    let (la, lb) = trim_bounds(cs, a, b);
    let ghost l = cs@.subrange(la as int, lb as int);
    if la == lb || cs[la] == '#' {
        return ;
    }
    let k = find_char(cs, la, lb, '=');
    proof {
        lemma_index_of_bound(l, '=');
    }
    if k == lb {
        return ;
    }
    let (ka, kb) = trim_bounds(cs, la, k);
    let (va, vb) = trim_bounds(cs, k + 1, lb);
    assert(cs@.subrange(la as int, k as int) =~= l.subrange(0, (k - la) as int));
    assert(cs@.subrange(k + 1, lb as int) =~= l.subrange((k - la) + 1, l.len() as int));
    let mouse_key = chars_of("mouse_sensitivity");
    let pad_key = chars_of("pad_sensitivity");
    let muted_key = chars_of("muted");
    if range_eq(cs, ka, kb, &mouse_key) {
        if let Some(v) = parse_i32_range(cs, va, vb) {
            s.mouse = clamp(v);
        }
    } else if range_eq(cs, ka, kb, &pad_key) {
        if let Some(v) = parse_i32_range(cs, va, vb) {
            s.pad = clamp(v);
        }
    } else if range_eq(cs, ka, kb, &muted_key) {
        let one = chars_of("1");
        let on = range_eq(cs, va, vb, &one) || is_true_range(cs, va, vb);
        s.muted = on;
    }
}

/// Whether `cs[a..b]` is the word `true` in any mix of ASCII case.
fn is_true_range(cs: &Vec<char>, a: usize, b: usize) -> (r: bool)
    requires
        a <= b <= cs.len(),
    ensures
        r == is_true_word(cs@.subrange(a as int, b as int)),
{
    if b - a != 4 {
        return false;
    }
    (cs[a] == 't' || cs[a] == 'T') && (cs[a + 1] == 'r' || cs[a + 1] == 'R') && (cs[a + 2] == 'u'
        || cs[a + 2] == 'U') && (cs[a + 3] == 'e' || cs[a + 3] == 'E')
}

/// Apply a settings file's contents. Anything missing or malformed keeps its current value,
/// so a hand-edited file with one bad line still applies its good ones.
pub fn apply(s: &mut Settings, text: &str)
    requires
        old(s).wf(),
    ensures
        *final(s) == apply_text(*old(s), text@),
        final(s).wf(),
{
    let cs = chars_of(text);
    let n = cs.len();
    let mut pos: usize = 0;
    assert(cs@.subrange(0, n as int) =~= text@);
    loop
        invariant
            pos <= n == cs.len(),
            cs@ == text@,
            s.wf(),
            apply_text(*old(s), text@) == apply_text(*s, cs@.subrange(pos as int, n as int)),
        ensures
            *s == apply_text(*old(s), text@),
            s.wf(),
        decreases n - pos,
    {
        let ghost rest = cs@.subrange(pos as int, n as int);
        let k = find_char(&cs, pos, n, '\n');
        proof {
            lemma_index_of_bound(rest, '\n');
        }
        assert(cs@.subrange(pos as int, k as int) =~= rest.subrange(0, (k - pos) as int));
        apply_line_exec(s, &cs, pos, k);
        if k == n {
            break ;
        }
        assert(cs@.subrange(k + 1, n as int) =~= rest.subrange((k - pos) + 1, rest.len() as int));
        pos = k + 1;
    }
}

/// The current mouse sensitivity notch.
pub fn mouse_level(s: &Settings) -> (r: i32)
    ensures
        r == s.mouse,
{
    s.mouse
}

/// The current gamepad sensitivity notch.
pub fn pad_level(s: &Settings) -> (r: i32)
    ensures
        r == s.pad,
{
    s.pad
}

/// Whether audio is muted.
pub fn muted(s: &Settings) -> (r: bool)
    ensures
        r == s.muted,
{
    s.muted
}

/// Nudge the mouse sensitivity by `delta` notches, saturating at either end, and mark the
/// settings for writing. Returns the new level.
pub fn adjust_mouse(s: &mut Settings, delta: i32) -> (r: i32)
    requires
        old(s).wf(),
    ensures
        r == clamp_level(old(s).mouse + delta),
        *final(s) == (Settings { mouse: r, dirty: true, ..*old(s) }),
        final(s).wf(),
{
    let v = nudged(s.mouse, delta);
    s.mouse = v;
    s.dirty = true;
    v
}

/// Nudge the gamepad sensitivity by `delta` notches, saturating at either end, and mark the
/// settings for writing. Returns the new level.
pub fn adjust_pad(s: &mut Settings, delta: i32) -> (r: i32)
    requires
        old(s).wf(),
    ensures
        r == clamp_level(old(s).pad + delta),
        *final(s) == (Settings { pad: r, dirty: true, ..*old(s) }),
        final(s).wf(),
{
    let v = nudged(s.pad, delta);
    s.pad = v;
    s.dirty = true;
    v
}

/// Mute or unmute, and mark the settings for writing.
pub fn set_muted(s: &mut Settings, on: bool)
    ensures
        *final(s) == (Settings { muted: on, dirty: true, ..*old(s) }),
{
    s.muted = on;
    s.dirty = true;
}

/// The settings file's text for `s`: a comment, then one `key = value` line per setting.
pub open spec fn serialized(s: Settings) -> Seq<char> {
    "# DayDreams settings. Sensitivity is a notch from 1 to 10; 5 is the default.\n"@
        + "mouse_sensitivity = "@ + decimal(s.mouse as nat) + "\n"@ + "pad_sensitivity = "@
        + decimal(s.pad as nat) + "\n"@ + "muted = "@ + (if s.muted {
        "1"@
    } else {
        "0"@
    }) + "\n"@
}

/// The text of a notch on the ladder.
fn level_text(v: i32) -> (r: &'static str)
    requires
        1 <= v <= LEVELS,
    ensures
        r@ == decimal(v as nat),
{
    reveal_with_fuel(decimal, 2);
    if v == 1 {
        proof { reveal_strlit("1"); }
        "1"
    } else if v == 2 {
        proof { reveal_strlit("2"); }
        "2"
    } else if v == 3 {
        proof { reveal_strlit("3"); }
        "3"
    } else if v == 4 {
        proof { reveal_strlit("4"); }
        "4"
    } else if v == 5 {
        proof { reveal_strlit("5"); }
        "5"
    } else if v == 6 {
        proof { reveal_strlit("6"); }
        "6"
    } else if v == 7 {
        proof { reveal_strlit("7"); }
        "7"
    } else if v == 8 {
        proof { reveal_strlit("8"); }
        "8"
    } else if v == 9 {
        proof { reveal_strlit("9"); }
        "9"
    } else {
        proof {
            reveal_strlit("10");
            assert(decimal(1) =~= seq!['1']);
        }
        "10"
    }
}

/// The file's contents for the current values.
pub fn serialize(s: &Settings) -> (r: String)
    requires
        s.wf(),
    ensures
        r@ == serialized(*s),
{
    let mut out = String::new();
    out.append("# DayDreams settings. Sensitivity is a notch from 1 to 10; 5 is the default.\n");
    out.append("mouse_sensitivity = ");
    out.append(level_text(s.mouse));
    out.append("\n");
    out.append("pad_sensitivity = ");
    out.append(level_text(s.pad));
    out.append("\n");
    out.append("muted = ");
    if s.muted {
        out.append("1");
    } else {
        out.append("0");
    }
    out.append("\n");
    out
}

/// Read the settings file's text, if there was one, over the current values. What was read
/// is what is on disk, so nothing is left to write.
pub fn load(s: &mut Settings, text: Option<&str>)
    requires
        old(s).wf(),
    ensures
        final(s).wf(),
        match text {
            Some(t) => *final(s) == (Settings { dirty: false, ..apply_text(*old(s), t@) }),
            None => *final(s) == *old(s),
        },
{
    if let Some(t) = text {
        apply(s, t);
        s.dirty = false;
    }
}

/// The text to write back when anything changed since the last write, which then counts as
/// written; `None`, and nothing changed, when there is nothing new to write.
pub fn flush(s: &mut Settings) -> (r: Option<String>)
    requires
        old(s).wf(),
    ensures
        final(s).wf(),
        old(s).dirty ==> (r matches Some(t) && t@ == serialized(*old(s))),
        !old(s).dirty ==> r is None,
        *final(s) == (Settings { dirty: false, ..*old(s) }),
{
    if !s.dirty {
        return None;
    }
    s.dirty = false;
    Some(serialize(s))
}

/// A character other than `c` all the way through `t`.
pub open spec fn lacks(t: Seq<char>, c: char) -> bool {
    forall|j: int| 0 <= j < t.len() ==> t[j] != c
}

proof fn lemma_index_of_after(line: Seq<char>, c: char, rest: Seq<char>)
    requires
        lacks(line, c),
    ensures
        index_of(line + seq![c] + rest, c) == line.len(),
    decreases line.len(),
{
    if line.len() > 0 {
        assert((line + seq![c] + rest).drop_first() =~= line.drop_first() + seq![c] + rest);
        lemma_index_of_after(line.drop_first(), c, rest);
    }
}

/// A file is its first line, then the rest of it.
proof fn lemma_apply_text_line(x: Settings, line: Seq<char>, rest: Seq<char>)
    requires
        lacks(line, '\n'),
    ensures
        apply_text(x, line + seq!['\n'] + rest) == apply_text(apply_line(x, line), rest),
{
    let t = line + seq!['\n'] + rest;
    lemma_index_of_after(line, '\n', rest);
    assert(t.subrange(0, line.len() as int) =~= line);
    assert(t.subrange(line.len() + 1int, t.len() as int) =~= rest);
}

proof fn lemma_digits_of_level(v: int)
    requires
        1 <= v <= LEVELS,
    ensures
        decimal(v as nat).len() > 0,
        all_digits(decimal(v as nat)),
        digits_value(decimal(v as nat)) == v,
        !is_ws(decimal(v as nat)[0]),
        !is_ws(decimal(v as nat).last()),
        decimal(v as nat)[0] != '-' && decimal(v as nat)[0] != '+',
        lacks(decimal(v as nat), '\n'),
{
    reveal_with_fuel(decimal, 2);
    reveal_with_fuel(digits_value, 3);
    let d = decimal(v as nat);
    assert(('0' as u32) == 48 && ('1' as u32) == 49 && ('2' as u32) == 50 && ('3' as u32) == 51
        && ('4' as u32) == 52 && ('5' as u32) == 53 && ('6' as u32) == 54 && ('7' as u32) == 55
        && ('8' as u32) == 56 && ('9' as u32) == 57);
    if v == 10 {
        assert(d =~= seq!['1', '0']);
        assert(d.drop_last() =~= seq!['1']);
        assert(seq!['1'].drop_last() =~= Seq::<char>::empty());
        assert(digits_value(seq!['1']) == 1);
    } else {
        assert(d =~= seq![digit(v)]);
        assert(d.drop_last() =~= Seq::<char>::empty());
        assert((digit(v) as u32) == 48 + v);
    }
}

/// The value of a `key = value` line is read back as it was written.
proof fn lemma_pair_line(key: Seq<char>, value: Seq<char>)
    requires
        key.len() > 0,
        value.len() > 0,
        !is_ws(key[0]),
        key[0] != '#',
        !is_ws(key.last()),
        lacks(key, '='),
        !is_ws(value[0]),
        !is_ws(value.last()),
    ensures
        ({
            let l = key + seq![' ', '=', ' '] + value;
            let k = index_of(trim(l), '=');
            &&& trim(l) == l
            &&& l[0] != '#'
            &&& k == key.len() + 1
            &&& k < l.len()
            &&& trim(l.subrange(0, k as int)) == key
            &&& trim(l.subrange(k + 1int, l.len() as int)) == value
        }),
{
    let l = key + seq![' ', '=', ' '] + value;
    assert(l[0] == key[0]);
    assert(l.last() == value.last());
    assert(trim_start(l) == l);
    assert(trim_end(l) == l);
    let kp = key + seq![' '];
    assert(lacks(kp, '='));
    assert(l =~= kp + seq!['='] + (seq![' '] + value));
    lemma_index_of_after(kp, '=', seq![' '] + value);
    let k = key.len() + 1;
    assert(l.subrange(0, k as int) =~= kp);
    assert(kp.drop_last() =~= key);
    assert(trim_start(kp) == kp);
    assert(trim_end(kp) == trim_end(key));
    assert(trim_end(key) == key);
    let vp = seq![' '] + value;
    assert(l.subrange(k + 1int, l.len() as int) =~= vp);
    assert(vp.drop_first() =~= value);
    assert(trim_start(vp) == trim_start(value));
    assert(trim_start(value) == value);
    assert(trim_end(value) == value);
}

/// The text of a `key = value` line.
pub open spec fn pair_line(key: Seq<char>, value: Seq<char>) -> Seq<char> {
    key + seq![' ', '=', ' '] + value
}

proof fn lemma_lacks_pair(key: Seq<char>, value: Seq<char>, c: char)
    requires
        lacks(key, c),
        lacks(value, c),
        c != ' ' && c != '=',
    ensures
        lacks(pair_line(key, value), c),
{
    let l = pair_line(key, value);
    assert forall|j: int| 0 <= j < l.len() implies l[j] != c by {
        if j >= key.len() + 3 {
            assert(l[j] == value[j - key.len() - 3]);
        } else if j < key.len() {
            assert(l[j] == key[j]);
        }
    }
}

proof fn lemma_header_line(x: Settings)
    ensures
        lacks(header_line(), '\n'),
        apply_line(x, header_line()) == x,
{
    reveal_strlit(
        "# DayDreams settings. Sensitivity is a notch from 1 to 10; 5 is the default.\n",
    );
    let head = header_line();
    assert(lacks(head, '\n'));
    assert(trim_start(head) == head);
    assert(trim_end(head) == head);
}

/// The comment that opens the file, without its line break.
pub open spec fn header_line() -> Seq<char> {
    "# DayDreams settings. Sensitivity is a notch from 1 to 10; 5 is the default.\n"@.drop_last()
}

proof fn lemma_header_split()
    ensures
        "# DayDreams settings. Sensitivity is a notch from 1 to 10; 5 is the default.\n"@
            == header_line() + seq!['\n'],
{
    reveal_strlit(
        "# DayDreams settings. Sensitivity is a notch from 1 to 10; 5 is the default.\n",
    );
    assert("# DayDreams settings. Sensitivity is a notch from 1 to 10; 5 is the default.\n"@
        =~= header_line() + seq!['\n']);
}

proof fn lemma_mouse_line(x: Settings, v: int)
    requires
        1 <= v <= LEVELS,
    ensures
        "mouse_sensitivity = "@ == "mouse_sensitivity"@ + seq![' ', '=', ' '],
        lacks(pair_line("mouse_sensitivity"@, decimal(v as nat)), '\n'),
        apply_line(x, pair_line("mouse_sensitivity"@, decimal(v as nat))) == (Settings {
            mouse: v as i32,
            ..x
        }),
{
    reveal_strlit("mouse_sensitivity = ");
    reveal_strlit("mouse_sensitivity");
    let k = "mouse_sensitivity"@;
    let d = decimal(v as nat);
    assert("mouse_sensitivity = "@ =~= k + seq![' ', '=', ' ']);
    lemma_digits_of_level(v);
    assert(lacks(k, '\n') && lacks(k, '='));
    lemma_lacks_pair(k, d, '\n');
    lemma_pair_line(k, d);
}

proof fn lemma_pad_line(x: Settings, v: int)
    requires
        1 <= v <= LEVELS,
    ensures
        "pad_sensitivity = "@ == "pad_sensitivity"@ + seq![' ', '=', ' '],
        lacks(pair_line("pad_sensitivity"@, decimal(v as nat)), '\n'),
        apply_line(x, pair_line("pad_sensitivity"@, decimal(v as nat))) == (Settings {
            pad: v as i32,
            ..x
        }),
{
    reveal_strlit("pad_sensitivity = ");
    reveal_strlit("pad_sensitivity");
    reveal_strlit("mouse_sensitivity");
    let k = "pad_sensitivity"@;
    let d = decimal(v as nat);
    assert("pad_sensitivity = "@ =~= k + seq![' ', '=', ' ']);
    lemma_digits_of_level(v);
    assert(lacks(k, '\n') && lacks(k, '='));
    assert(k != "mouse_sensitivity"@) by {
        assert(k.len() != "mouse_sensitivity"@.len());
    }
    lemma_lacks_pair(k, d, '\n');
    lemma_pair_line(k, d);
}

proof fn lemma_muted_line(x: Settings, on: bool)
    ensures
        "muted = "@ == "muted"@ + seq![' ', '=', ' '],
        lacks(pair_line("muted"@, (if on { "1"@ } else { "0"@ })), '\n'),
        apply_line(x, pair_line("muted"@, (if on { "1"@ } else { "0"@ }))) == (Settings {
            muted: on,
            ..x
        }),
{
    reveal_strlit("muted = ");
    reveal_strlit("muted");
    reveal_strlit("pad_sensitivity");
    reveal_strlit("mouse_sensitivity");
    reveal_strlit("1");
    reveal_strlit("0");
    let k = "muted"@;
    let d: Seq<char> = if on {
        "1"@
    } else {
        "0"@
    };
    assert("muted = "@ =~= k + seq![' ', '=', ' ']);
    assert(lacks(k, '\n') && lacks(k, '='));
    assert(lacks(d, '\n'));
    assert(k != "mouse_sensitivity"@) by {
        assert(k.len() != "mouse_sensitivity"@.len());
    }
    assert(k != "pad_sensitivity"@) by {
        assert(k.len() != "pad_sensitivity"@.len());
    }
    assert(!is_true_word(d));
    assert(on ==> d == "1"@);
    assert(!on ==> d != "1"@) by {
        if !on {
            assert(d[0] != "1"@[0]);
        }
    }
    lemma_lacks_pair(k, d, '\n');
    lemma_pair_line(k, d);
}

/// A `muted = <value>` line, whatever the settings before it, mutes exactly when the value is
/// `1` or the word `true` with each letter in either case (`true`, `TRUE`, `True`, ...), and
/// unmutes for any other value; the sensitivities are left alone, and the lines after it
/// apply as usual.
pub proof fn lemma_muted_is_one_or_true_in_any_case(x: Settings, value: Seq<char>, rest: Seq<char>)
    requires
        value.len() > 0,
        !is_ws(value[0]),
        !is_ws(value.last()),
        lacks(value, '\n'),
    ensures
        apply_text(x, "muted = "@ + value + "\n"@ + rest) == apply_text(
            Settings {
                muted: value == "1"@ || (value.len() == 4 && forall|i: int|
                    0 <= i < 4 ==> value[i] == "true"@[i] || value[i] == "TRUE"@[i]),
                ..x
            },
            rest,
        ),
{
    reveal_strlit("muted = ");
    reveal_strlit("muted");
    reveal_strlit("pad_sensitivity");
    reveal_strlit("mouse_sensitivity");
    reveal_strlit("\n");
    reveal_strlit("true");
    reveal_strlit("TRUE");
    let k = "muted"@;
    assert("muted = "@ =~= k + seq![' ', '=', ' ']);
    assert(lacks(k, '\n') && lacks(k, '='));
    assert(k != "mouse_sensitivity"@) by {
        assert(k.len() != "mouse_sensitivity"@.len());
    }
    assert(k != "pad_sensitivity"@) by {
        assert(k.len() != "pad_sensitivity"@.len());
    }
    lemma_lacks_pair(k, value, '\n');
    lemma_pair_line(k, value);
    assert("muted = "@ + value + "\n"@ + rest =~= pair_line(k, value) + seq!['\n'] + rest);
    lemma_apply_text_line(x, pair_line(k, value), rest);
    let word = value.len() == 4 && forall|i: int|
        0 <= i < 4 ==> value[i] == "true"@[i] || value[i] == "TRUE"@[i];
    assert(is_true_word(value) == word) by {
        if is_true_word(value) {
            assert forall|i: int| 0 <= i < 4 implies value[i] == "true"@[i] || value[i]
                == "TRUE"@[i] by {}
        }
        if word {
            assert(value[0] == "true"@[0] || value[0] == "TRUE"@[0]);
            assert(value[1] == "true"@[1] || value[1] == "TRUE"@[1]);
            assert(value[2] == "true"@[2] || value[2] == "TRUE"@[2]);
            assert(value[3] == "true"@[3] || value[3] == "TRUE"@[3]);
        }
    }
}

/// A sensitivity line whose value does not start like a number -- not a digit, `+` or `-`
/// -- is malformed, and changes nothing: the setting keeps the value it had, and the lines
/// after it apply as usual.
pub proof fn lemma_malformed_sensitivity_keeps_its_value(
    x: Settings,
    pad: bool,
    value: Seq<char>,
    rest: Seq<char>,
)
    requires
        value.len() > 0,
        !is_ws(value[0]),
        !is_ws(value.last()),
        lacks(value, '\n'),
        !(48 <= value[0] as u32 <= 57) && value[0] != '+' && value[0] != '-',
    ensures
        apply_text(
            x,
            (if pad {
                "pad_sensitivity = "@
            } else {
                "mouse_sensitivity = "@
            }) + value + "\n"@ + rest,
        ) == apply_text(x, rest),
{
    reveal_strlit("mouse_sensitivity = ");
    reveal_strlit("pad_sensitivity = ");
    reveal_strlit("mouse_sensitivity");
    reveal_strlit("pad_sensitivity");
    reveal_strlit("\n");
    let k: Seq<char> = if pad {
        "pad_sensitivity"@
    } else {
        "mouse_sensitivity"@
    };
    assert("mouse_sensitivity = "@ =~= "mouse_sensitivity"@ + seq![' ', '=', ' ']);
    assert("pad_sensitivity = "@ =~= "pad_sensitivity"@ + seq![' ', '=', ' ']);
    assert(lacks(k, '\n') && lacks(k, '='));
    assert("pad_sensitivity"@ != "mouse_sensitivity"@) by {
        assert("pad_sensitivity"@.len() != "mouse_sensitivity"@.len());
    }
    lemma_lacks_pair(k, value, '\n');
    lemma_pair_line(k, value);
    assert((if pad {
        "pad_sensitivity = "@
    } else {
        "mouse_sensitivity = "@
    }) + value + "\n"@ + rest =~= pair_line(k, value) + seq!['\n'] + rest);
    lemma_apply_text_line(x, pair_line(k, value), rest);
    assert(!all_digits(value)) by {
        assert(!(48 <= value[0] as u32 <= 57));
    }
    assert(parse_i32(value) is None);
}

/// A sensitivity line with a whole number in `i32` range sets that sensitivity to the number
/// pulled onto the ladder -- below the first notch is the first, past the last is the last --
/// whatever it was before; the other settings are left alone, and the lines after it apply as
/// usual.
pub proof fn lemma_sensitivity_line_sets_the_notch(x: Settings, pad: bool, n: nat, rest: Seq<char>)
    requires
        n <= i32::MAX,
    ensures
        ({
            let notch: i32 = if n < 1 {
                1
            } else if n > LEVELS {
                LEVELS
            } else {
                n as i32
            };
            apply_text(
                x,
                (if pad {
                    "pad_sensitivity = "@
                } else {
                    "mouse_sensitivity = "@
                }) + decimal(n) + "\n"@ + rest,
            ) == apply_text(
                if pad {
                    Settings { pad: notch, ..x }
                } else {
                    Settings { mouse: notch, ..x }
                },
                rest,
            )
        }),
{
    reveal_strlit("mouse_sensitivity = ");
    reveal_strlit("pad_sensitivity = ");
    reveal_strlit("mouse_sensitivity");
    reveal_strlit("pad_sensitivity");
    reveal_strlit("\n");
    let k: Seq<char> = if pad {
        "pad_sensitivity"@
    } else {
        "mouse_sensitivity"@
    };
    let d = decimal(n);
    lemma_decimal_parses_back(n);
    assert(!is_ws(d[0]) && !is_ws(d.last()) && lacks(d, '\n')) by {
        assert(48 <= (d[0] as u32) <= 57);
        assert(48 <= (d[d.len() - 1] as u32) <= 57);
        assert forall|j: int| 0 <= j < d.len() implies d[j] != '\n' by {
            assert(48 <= (d[j] as u32) <= 57);
        }
    }
    assert("mouse_sensitivity = "@ =~= "mouse_sensitivity"@ + seq![' ', '=', ' ']);
    assert("pad_sensitivity = "@ =~= "pad_sensitivity"@ + seq![' ', '=', ' ']);
    assert(lacks(k, '\n') && lacks(k, '='));
    assert("pad_sensitivity"@ != "mouse_sensitivity"@) by {
        assert("pad_sensitivity"@.len() != "mouse_sensitivity"@.len());
    }
    lemma_lacks_pair(k, d, '\n');
    lemma_pair_line(k, d);
    assert((if pad {
        "pad_sensitivity = "@
    } else {
        "mouse_sensitivity = "@
    }) + d + "\n"@ + rest =~= pair_line(k, d) + seq!['\n'] + rest);
    lemma_apply_text_line(x, pair_line(k, d), rest);
}

/// A hand-edited `muted = true` mutes, in any ASCII case and whatever came before it.
pub proof fn lemma_muted_true_mutes(x: Settings)
    ensures
        apply_text(x, "muted = true\n"@).muted,
        apply_text(x, "muted = TRUE\n"@).muted,
        apply_text(x, "muted = True\n"@).muted,
        apply_text(x, "muted = 1\n"@).muted,
        !apply_text(x, "muted = 0\n"@).muted,
{
    reveal_strlit("muted = ");
    reveal_strlit("\n");
    reveal_strlit("muted = true\n");
    reveal_strlit("muted = TRUE\n");
    reveal_strlit("muted = True\n");
    reveal_strlit("muted = 1\n");
    reveal_strlit("muted = 0\n");
    reveal_strlit("true");
    reveal_strlit("TRUE");
    reveal_strlit("True");
    reveal_strlit("1");
    reveal_strlit("0");
    let e = Seq::<char>::empty();
    assert(trim_start(e) == e);
    assert(trim_end(e) == e);
    assert(index_of(e, '=') == 0);
    assert(index_of(e, '\n') == 0);
    assert("muted = true\n"@ =~= "muted = "@ + "true"@ + "\n"@ + e);
    assert("muted = TRUE\n"@ =~= "muted = "@ + "TRUE"@ + "\n"@ + e);
    assert("muted = True\n"@ =~= "muted = "@ + "True"@ + "\n"@ + e);
    assert("muted = 1\n"@ =~= "muted = "@ + "1"@ + "\n"@ + e);
    assert("muted = 0\n"@ =~= "muted = "@ + "0"@ + "\n"@ + e);
    lemma_muted_is_one_or_true_in_any_case(x, "true"@, e);
    lemma_muted_is_one_or_true_in_any_case(x, "TRUE"@, e);
    lemma_muted_is_one_or_true_in_any_case(x, "True"@, e);
    lemma_muted_is_one_or_true_in_any_case(x, "1"@, e);
    lemma_muted_is_one_or_true_in_any_case(x, "0"@, e);
    assert("0"@ != "1"@) by {
        assert("0"@[0] != "1"@[0]);
    }
}

/// What [`serialize`] writes, [`apply`] reads back: the three settings, whatever they were
/// before the read.
pub proof fn lemma_round_trip(s: Settings, before: Settings)
    requires
        s.wf(),
    ensures
        apply_text(before, serialized(s)) == (Settings { dirty: before.dirty, ..s }),
{
    reveal_strlit("\n");
    let dm = decimal(s.mouse as nat);
    let dp = decimal(s.pad as nat);
    let du: Seq<char> = if s.muted {
        "1"@
    } else {
        "0"@
    };
    let lm = pair_line("mouse_sensitivity"@, dm);
    let lp = pair_line("pad_sensitivity"@, dp);
    let lu = pair_line("muted"@, du);
    let nl = seq!['\n'];
    lemma_header_split();
    lemma_header_line(before);
    lemma_mouse_line(before, s.mouse as int);
    let s1 = Settings { mouse: s.mouse, ..before };
    lemma_pad_line(s1, s.pad as int);
    let s2 = Settings { pad: s.pad, ..s1 };
    lemma_muted_line(s2, s.muted);
    let s3 = Settings { muted: s.muted, ..s2 };
    assert(serialized(s) =~= header_line() + nl + (lm + nl + (lp + nl + (lu + nl
        + Seq::empty()))));
    lemma_apply_text_line(before, header_line(), lm + nl + (lp + nl + (lu + nl + Seq::empty())));
    lemma_apply_text_line(before, lm, lp + nl + (lu + nl + Seq::empty()));
    lemma_apply_text_line(s1, lp, lu + nl + Seq::empty());
    lemma_apply_text_line(s2, lu, Seq::empty());
    assert(trim_start(Seq::<char>::empty()) == Seq::<char>::empty());
    assert(apply_text(s3, Seq::empty()) == s3);
}

} // verus!
