//! Character-level text helpers the settings file format is read with: whitespace as
//! `char::is_whitespace` defines it, trimming, searching and `i32` parsing, each stated over
//! the string's characters.

use vstd::prelude::*;
use vstd::std_specs::iter::IteratorSpec;

verus! {

/// `char::is_whitespace`: the Unicode `White_Space` property.
pub open spec fn is_ws(c: char) -> bool {
    let u = c as u32;
    ||| 0x09 <= u <= 0x0D
    ||| u == 0x20
    ||| u == 0x85
    ||| u == 0xA0
    ||| u == 0x1680
    ||| 0x2000 <= u <= 0x200A
    ||| u == 0x2028
    ||| u == 0x2029
    ||| u == 0x202F
    ||| u == 0x205F
    ||| u == 0x3000
}

/// `t` without its leading whitespace.
pub open spec fn trim_start(t: Seq<char>) -> Seq<char>
    decreases t.len(),
{
    if t.len() > 0 && is_ws(t[0]) {
        trim_start(t.drop_first())
    } else {
        t
    }
}

/// `t` without its trailing whitespace.
pub open spec fn trim_end(t: Seq<char>) -> Seq<char>
    decreases t.len(),
{
    if t.len() > 0 && is_ws(t.last()) {
        trim_end(t.drop_last())
    } else {
        t
    }
}

/// `str::trim`: whitespace off both ends.
pub open spec fn trim(t: Seq<char>) -> Seq<char> {
    trim_end(trim_start(t))
}

/// Index of the first `c` in `t`, or `t.len()` when there is none.
pub open spec fn index_of(t: Seq<char>, c: char) -> nat
    decreases t.len(),
{
    if t.len() == 0 || t[0] == c {
        0
    } else {
        1 + index_of(t.drop_first(), c)
    }
}

pub fn is_ws_char(c: char) -> (r: bool)
    ensures
        r == is_ws(c),
{
    let u = c as u32;
    (0x09 <= u && u <= 0x0D) || u == 0x20 || u == 0x85 || u == 0xA0 || u == 0x1680 || (0x2000
        <= u && u <= 0x200A) || u == 0x2028 || u == 0x2029 || u == 0x202F || u == 0x205F || u
        == 0x3000
}

/// The characters of `s`, in order.
pub fn chars_of(s: &str) -> (v: Vec<char>)
    ensures
        v@ == s@,
{
    broadcast use vstd::string::axiom_spec_iter, vstd::string::next_postcondition;

    let mut v: Vec<char> = Vec::new();
    let mut it = s.chars();
    loop
        invariant
            v@ + it.remaining() == s@,
            it.decrease() is Some,
        ensures
            v@ == s@,
        decreases it.decrease()->0,
    {
        match it.next() {
            Some(c) => {
                v.push(c);
            },
            None => {
                assert(v@ =~= s@);
                break ;
            },
        }
    }
    v
}

/// `index_of` never runs past the end.
pub proof fn lemma_index_of_bound(t: Seq<char>, c: char)
    ensures
        index_of(t, c) <= t.len(),
        index_of(t, c) < t.len() ==> t[index_of(t, c) as int] == c,
    decreases t.len(),
{
    if t.len() > 0 && t[0] != c {
        lemma_index_of_bound(t.drop_first(), c);
    }
}

/// Whether every character of `t` is an ASCII digit.
pub open spec fn all_digits(t: Seq<char>) -> bool {
    forall|i: int| 0 <= i < t.len() ==> 48 <= #[trigger] (t[i] as u32) <= 57
}

/// The number a run of ASCII digits spells, most significant first.
pub open spec fn digits_value(t: Seq<char>) -> int
    decreases t.len(),
{
    if t.len() == 0 {
        0
    } else {
        digits_value(t.drop_last()) * 10 + (t.last() as u32 - 48)
    }
}

/// `str::parse::<i32>`: an optional `+` or `-`, then one or more ASCII digits, in range.
pub open spec fn parse_i32(t: Seq<char>) -> Option<i32> {
    let signed = t.len() > 0 && (t[0] == '-' || t[0] == '+');
    let body = if signed {
        t.drop_first()
    } else {
        t
    };
    let m = if t.len() > 0 && t[0] == '-' {
        -digits_value(body)
    } else {
        digits_value(body)
    };
    if body.len() == 0 || !all_digits(body) {
        None
    } else if i32::MIN <= m <= i32::MAX {
        Some(m as i32)
    } else {
        None
    }
}

/// Bounds, inside `cs`, of `trim(cs[a..b])`.
pub fn trim_bounds(cs: &Vec<char>, a: usize, b: usize) -> (r: (usize, usize))
    requires
        a <= b <= cs.len(),
    ensures
        a <= r.0 <= r.1 <= b,
        cs@.subrange(r.0 as int, r.1 as int) == trim(cs@.subrange(a as int, b as int)),
{
    let mut i = a;
    while i < b && is_ws_char(cs[i])
        invariant
            a <= i <= b <= cs.len(),
            trim_start(cs@.subrange(a as int, b as int)) == trim_start(
                cs@.subrange(i as int, b as int),
            ),
        decreases b - i,
    {
        assert(cs@.subrange(i as int, b as int).drop_first() =~= cs@.subrange(
            i + 1,
            b as int,
        ));
        i += 1;
    }
    assert(trim_start(cs@.subrange(i as int, b as int)) == cs@.subrange(i as int, b as int));
    let mut j = b;
    while j > i && is_ws_char(cs[j - 1])
        invariant
            a <= i <= j <= b <= cs.len(),
            trim_end(cs@.subrange(i as int, b as int)) == trim_end(
                cs@.subrange(i as int, j as int),
            ),
        decreases j,
    {
        assert(cs@.subrange(i as int, j as int).drop_last() =~= cs@.subrange(
            i as int,
            j - 1,
        ));
        j -= 1;
    }
    assert(trim_end(cs@.subrange(i as int, j as int)) == cs@.subrange(i as int, j as int));
    (i, j)
}

/// Position of the first `c` in `cs[a..b]`, or `b`.
pub fn find_char(cs: &Vec<char>, a: usize, b: usize, c: char) -> (k: usize)
    requires
        a <= b <= cs.len(),
    ensures
        a <= k <= b,
        k == a + index_of(cs@.subrange(a as int, b as int), c),
{
    let mut i = a;
    while i < b && cs[i] != c
        invariant
            a <= i <= b <= cs.len(),
            index_of(cs@.subrange(a as int, b as int), c) == (i - a) + index_of(
                cs@.subrange(i as int, b as int),
                c,
            ),
        decreases b - i,
    {
        assert(cs@.subrange(i as int, b as int).drop_first() =~= cs@.subrange(
            i + 1,
            b as int,
        ));
        i += 1;
    }
    i
}

/// Whether `cs[a..b]` is exactly `lit`.
pub fn range_eq(cs: &Vec<char>, a: usize, b: usize, lit: &Vec<char>) -> (r: bool)
    requires
        a <= b <= cs.len(),
    ensures
        r == (cs@.subrange(a as int, b as int) == lit@),
{
    if b - a != lit.len() {
        return false;
    }
    let mut i: usize = 0;
    while i < lit.len()
        invariant
            a <= b <= cs.len(),
            b - a == lit.len(),
            0 <= i <= lit.len(),
            forall|j: int| 0 <= j < i ==> cs@[a + j] == lit@[j],
        decreases lit.len() - i,
    {
        if cs[a + i] != lit[i] {
            assert(cs@.subrange(a as int, b as int)[i as int] != lit@[i as int]);
            return false;
        }
        i += 1;
    }
    assert(cs@.subrange(a as int, b as int) =~= lit@);
    true
}

/// `str::parse::<i32>` on `cs[a..b]`.
pub fn parse_i32_range(cs: &Vec<char>, a: usize, b: usize) -> (r: Option<i32>)
    requires
        a <= b <= cs.len(),
    ensures
        r == parse_i32(cs@.subrange(a as int, b as int)),
{
    let ghost t = cs@.subrange(a as int, b as int);
    if a == b {
        return None;
    }
    let neg = cs[a] == '-';
    let start = if cs[a] == '-' || cs[a] == '+' {
        a + 1
    } else {
        a
    };
    let ghost body = cs@.subrange(start as int, b as int);
    assert(body =~= (if t.len() > 0 && (t[0] == '-' || t[0] == '+') {
        t.drop_first()
    } else {
        t
    }));
    if start == b {
        return None;
    }
    let mut acc: u64 = 0;
    let mut over = false;
    let mut i = start;
    while i < b
        invariant
            a <= start <= i <= b <= cs.len(),
            body == cs@.subrange(start as int, b as int),
            t == cs@.subrange(a as int, b as int),
            body == (if t.len() > 0 && (t[0] == '-' || t[0] == '+') {
                t.drop_first()
            } else {
                t
            }),
            body.len() > 0,
            all_digits(cs@.subrange(start as int, i as int)),
            !over ==> acc == digits_value(cs@.subrange(start as int, i as int)),
            !over ==> acc <= 2147483648,
            over ==> digits_value(cs@.subrange(start as int, i as int)) > 2147483648,
        decreases b - i,
    {
        let c = cs[i];
        let u = c as u32;
        if u < 48 || u > 57 {
            assert(!all_digits(body)) by {
                assert(body[i as int - start as int] == c);
            }
            return None;
        }
        let ghost pre = cs@.subrange(start as int, i as int);
        let ghost nxt = cs@.subrange(start as int, i + 1);
        assert(nxt.drop_last() =~= pre);
        assert(nxt.last() == c);
        proof {
            assert(digits_value(pre) >= 0) by {
                lemma_digits_value_nonneg(pre);
            }
        }
        if !over {
            acc = acc * 10 + (u - 48) as u64;
            if acc > 2147483648 {
                over = true;
            }
        }
        assert(all_digits(nxt)) by {
            assert forall|j: int| 0 <= j < nxt.len() implies 48 <= #[trigger] (nxt[j] as u32)
                <= 57 by {
                if j < pre.len() {
                    assert(nxt[j] == pre[j]);
                }
            }
        }
        i += 1;
    }
    assert(cs@.subrange(start as int, b as int) =~= body);
    if over {
        return None;
    }
    if neg {
        let v: i64 = -(acc as i64);
        Some(v as i32)
    } else if acc <= 2147483647 {
        Some(acc as i32)
    } else {
        None
    }
}

/// A run of digits spells a non-negative number.
pub proof fn lemma_digits_value_nonneg(t: Seq<char>)
    requires
        all_digits(t),
    ensures
        digits_value(t) >= 0,
    decreases t.len(),
{
    if t.len() > 0 {
        assert(48 <= (t[t.len() - 1] as u32));
        assert(all_digits(t.drop_last())) by {
            assert forall|j: int| 0 <= j < t.drop_last().len() implies 48 <= #[trigger] (
            t.drop_last()[j] as u32) <= 57 by {
                assert(t.drop_last()[j] == t[j]);
            }
        }
        lemma_digits_value_nonneg(t.drop_last());
    }
}

/// The decimal spelling of a digit.
pub open spec fn digit(d: int) -> char {
    if d == 0 {
        '0'
    } else if d == 1 {
        '1'
    } else if d == 2 {
        '2'
    } else if d == 3 {
        '3'
    } else if d == 4 {
        '4'
    } else if d == 5 {
        '5'
    } else if d == 6 {
        '6'
    } else if d == 7 {
        '7'
    } else if d == 8 {
        '8'
    } else {
        '9'
    }
}

/// The decimal spelling of `n`, as `format!("{}")` writes it.
pub open spec fn decimal(n: nat) -> Seq<char>
    decreases n,
{
    if n < 10 {
        seq![digit(n as int)]
    } else {
        decimal(n / 10).push(digit((n % 10) as int))
    }
}

/// What `decimal` writes, `parse_i32` reads back: the spelling of any number in range is a
/// run of ASCII digits, with no sign and no whitespace, that parses to the number itself.
pub proof fn lemma_decimal_parses_back(n: nat)
    ensures
        decimal(n).len() > 0,
        all_digits(decimal(n)),
        digits_value(decimal(n)) == n,
        n <= i32::MAX ==> parse_i32(decimal(n)) == Some(n as i32),
    decreases n,
{
    assert(('0' as u32) == 48 && ('1' as u32) == 49 && ('2' as u32) == 50 && ('3' as u32) == 51
        && ('4' as u32) == 52 && ('5' as u32) == 53 && ('6' as u32) == 54 && ('7' as u32) == 55
        && ('8' as u32) == 56 && ('9' as u32) == 57);
    let d = decimal(n);
    if n < 10 {
        assert(d =~= seq![digit(n as int)]);
        assert(d.drop_last() =~= Seq::<char>::empty());
        assert((digit(n as int) as u32) == 48 + n);
        assert(digits_value(Seq::<char>::empty()) == 0);
        assert(digits_value(d) == n);
    } else {
        lemma_decimal_parses_back(n / 10);
        vstd::arithmetic::div_mod::lemma_fundamental_div_mod(n as int, 10);
        let p = decimal(n / 10);
        let last = digit((n % 10) as int);
        assert(d == p.push(last));
        assert(d.drop_last() =~= p);
        assert((last as u32) == 48 + n % 10);
        assert(d.last() == last);
        assert(digits_value(d) == digits_value(p) * 10 + (last as u32 - 48));
        assert forall|i: int| 0 <= i < d.len() implies 48 <= #[trigger] (d[i] as u32) <= 57 by {
            if i < p.len() {
                assert(d[i] == p[i]);
            }
        }
    }
    assert(d[0] != '-' && d[0] != '+') by {
        assert(48 <= (d[0] as u32) <= 57);
    }
}

/// The decimal spelling of `n` rolled back one digit: everything but the last digit of a
/// number of two or more, nothing for a single digit.
pub open spec fn decimal_prefix(m: nat) -> Seq<char> {
    if m == 0 {
        Seq::empty()
    } else {
        decimal(m)
    }
}

/// The text of a single decimal digit.
pub fn digit_text(d: u32) -> (r: &'static str)
    requires
        d < 10,
    ensures
        r@ == seq![digit(d as int)],
{
    if d == 0 {
        proof { reveal_strlit("0"); }
        "0"
    } else if d == 1 {
        proof { reveal_strlit("1"); }
        "1"
    } else if d == 2 {
        proof { reveal_strlit("2"); }
        "2"
    } else if d == 3 {
        proof { reveal_strlit("3"); }
        "3"
    } else if d == 4 {
        proof { reveal_strlit("4"); }
        "4"
    } else if d == 5 {
        proof { reveal_strlit("5"); }
        "5"
    } else if d == 6 {
        proof { reveal_strlit("6"); }
        "6"
    } else if d == 7 {
        proof { reveal_strlit("7"); }
        "7"
    } else if d == 8 {
        proof { reveal_strlit("8"); }
        "8"
    } else {
        proof { reveal_strlit("9"); }
        "9"
    }
}

/// `n` written in decimal, as `format!("{}")` writes it.
pub fn decimal_string(n: u64) -> (r: String)
    ensures
        r@ == decimal(n as nat),
{
    let mut digits: Vec<u32> = Vec::new();
    let mut m = n;
    loop
        invariant_except_break
            digits.len() > 0 ==> m > 0,
        invariant
            m <= n,
            decimal(n as nat) == (if digits.len() == 0 {
                decimal(n as nat)
            } else {
                decimal_prefix(m as nat) + Seq::new(
                    digits.len() as nat,
                    |i: int| digit(digits@[digits.len() - 1 - i] as int),
                )
            }),
            digits.len() > 0 ==> forall|i: int| 0 <= i < digits.len() ==> digits@[i] < 10,
            digits.len() == 0 ==> m == n,
        ensures
            m == 0,
            digits.len() > 0,
            forall|i: int| 0 <= i < digits.len() ==> digits@[i] < 10,
            decimal(n as nat) == Seq::new(
                digits.len() as nat,
                |i: int| digit(digits@[digits.len() - 1 - i] as int),
            ),
        decreases m, if digits.len() == 0 { 1int } else { 0 },
    {
        let d = (m % 10) as u32;
        let ghost before = digits@;
        let ghost mm = m;
        digits.push(d);
        m = m / 10;
        proof {
            let tail = Seq::new(
                digits.len() as nat,
                |i: int| digit(digits@[digits.len() - 1 - i] as int),
            );
            let old_tail = Seq::new(
                before.len() as nat,
                |i: int| digit(before[before.len() - 1 - i] as int),
            );
            assert(tail =~= seq![digit(d as int)] + old_tail);
            if mm >= 1 {
                assert(decimal_prefix(mm as nat) =~= decimal_prefix(m as nat) + seq![digit(d as int)]) by {
                    if mm >= 10 {
                        assert(decimal(mm as nat) == decimal((mm / 10) as nat).push(digit((mm % 10) as int)));
                    } else {
                        assert(decimal(mm as nat) == seq![digit(mm as int)]);
                    }
                }
            }
            if before.len() == 0 {
                assert(old_tail =~= Seq::<char>::empty());
                if mm == 0 {
                    assert(decimal(0) == seq![digit(0)]);
                    assert(decimal(n as nat) =~= decimal_prefix(m as nat) + tail);
                } else {
                    assert(decimal(n as nat) == decimal_prefix(mm as nat));
                    assert(decimal(n as nat) =~= decimal_prefix(m as nat) + tail);
                }
            } else {
                assert(decimal(n as nat) =~= decimal_prefix(m as nat) + tail);
            }
        }
        if m == 0 {
            proof {
                assert(decimal_prefix(0) =~= Seq::<char>::empty());
            }
            break ;
        }
    }
    let mut out = String::new();
    let mut i = digits.len();
    while i > 0
        invariant
            0 <= i <= digits.len(),
            forall|k: int| 0 <= k < digits.len() ==> digits@[k] < 10,
            out@ == Seq::new(
                (digits.len() - i) as nat,
                |k: int| digit(digits@[digits.len() - 1 - k] as int),
            ),
        decreases i,
    {
        i -= 1;
        out.append(digit_text(digits[i]));
        assert(out@ =~= Seq::new(
            (digits.len() - i) as nat,
            |k: int| digit(digits@[digits.len() - 1 - k] as int),
        ));
    }
    out
}

} // verus!
