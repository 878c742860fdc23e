//! Small text-building helpers: decimal digit strings, fixed-width padding,
//! and the `HH:MM` wall-clock rendering used by the display layout.

use vstd::prelude::*;
use vstd::string::*;
use vstd::arithmetic::div_mod::{lemma_add_mod_noop, lemma_mod_mod};

verus! {

/// The decimal digit character for `d` (meaningful for `0 <= d < 10`).
pub open spec fn digit_char(d: int) -> char {
    if d == 0 {
        '0'
    } else if d == 1 {
        '1'
    } else if d == 2 {
        '2'
    } else if d == 3 {
        '3'
    } else if d == 4 {
        '4'
    } else if d == 5 {
        '5'
    } else if d == 6 {
        '6'
    } else if d == 7 {
        '7'
    } else if d == 8 {
        '8'
    } else {
        '9'
    }
}

/// The decimal representation of `n` without leading zeroes
/// (a single `'0'` for zero itself).
pub open spec fn dec_digits(n: int) -> Seq<char>
    decreases n,
{
    if n < 10 {
        seq![digit_char(n)]
    } else {
        dec_digits(n / 10).push(digit_char(n % 10))
    }
}

/// Two decimal digits with a leading zero (meaningful for `0 <= n < 100`).
pub open spec fn two_digit_text(n: int) -> Seq<char> {
    seq![digit_char(n / 10), digit_char(n % 10)]
}

/// `n` space characters.
pub open spec fn spaces(n: int) -> Seq<char>
    decreases n,
{
    if n <= 0 {
        Seq::empty()
    } else {
        spaces(n - 1).push(' ')
    }
}

/// `s` padded on the left with spaces up to width `w`
/// (unchanged when already at least that wide).
pub open spec fn pad_left_text(s: Seq<char>, w: int) -> Seq<char> {
    if s.len() >= w {
        s
    } else {
        spaces(w - s.len()) + s
    }
}

/// `s` padded on the right with spaces up to width `w`.
pub open spec fn pad_right_text(s: Seq<char>, w: int) -> Seq<char> {
    if s.len() >= w {
        s
    } else {
        s + spaces(w - s.len())
    }
}

/// Hour of day (0..=23) of a wall-clock time given in seconds.
pub open spec fn hour_of_day(t: int) -> int {
    (t % 86400) / 3600
}

/// Minute of hour (0..=59) of a wall-clock time given in seconds.
pub open spec fn minute_of_hour(t: int) -> int {
    (t % 3600) / 60
}

/// The `HH:MM` rendering of a wall-clock time given in seconds.
pub open spec fn clock_text(t: int) -> Seq<char> {
    two_digit_text(hour_of_day(t)) + seq![':'] + two_digit_text(minute_of_hour(t))
}

/// The one-character string for decimal digit `d`.
fn digit_str(d: u64) -> (r: &'static str)
    requires
        d < 10,
    ensures
        r@ == seq![digit_char(d as int)],
{
    proof {
        reveal_strlit("0");
        reveal_strlit("1");
        reveal_strlit("2");
        reveal_strlit("3");
        reveal_strlit("4");
        reveal_strlit("5");
        reveal_strlit("6");
        reveal_strlit("7");
        reveal_strlit("8");
        reveal_strlit("9");
    }
    let r: &'static str = if d == 0 {
        "0"
    } else if d == 1 {
        "1"
    } else if d == 2 {
        "2"
    } else if d == 3 {
        "3"
    } else if d == 4 {
        "4"
    } else if d == 5 {
        "5"
    } else if d == 6 {
        "6"
    } else if d == 7 {
        "7"
    } else if d == 8 {
        "8"
    } else {
        "9"
    };
    proof {
        assert(r@ =~= seq![digit_char(d as int)]);
    }
    r
}

/// Appends the decimal representation of `n` to `out`.
pub fn push_decimal(out: &mut String, n: u64)
    ensures
        final(out)@ == old(out)@ + dec_digits(n as int),
    decreases n,
{
    if n < 10 {
        out.append(digit_str(n));
    } else {
        push_decimal(out, n / 10);
        out.append(digit_str(n % 10));
        proof {
            assert(old(out)@ + dec_digits((n / 10) as int) + seq![digit_char((n % 10) as int)]
                =~= old(out)@ + dec_digits(n as int));
        }
    }
}

/// The decimal representation of `n` as a fresh string.
pub fn decimal_string(n: u64) -> (r: String)
    ensures
        r@ == dec_digits(n as int),
{
    let mut r = String::new();
    push_decimal(&mut r, n);
    proof {
        assert(Seq::<char>::empty() + dec_digits(n as int) =~= dec_digits(n as int));
    }
    r
}

/// Appends `n` as exactly two digits, zero padded, to `out`.
pub fn push_two_digits(out: &mut String, n: u64)
    requires
        n < 100,
    ensures
        final(out)@ == old(out)@ + two_digit_text(n as int),
{
    out.append(digit_str(n / 10));
    out.append(digit_str(n % 10));
    proof {
        assert(old(out)@ + seq![digit_char((n / 10) as int)] + seq![digit_char((n % 10) as int)]
            =~= old(out)@ + two_digit_text(n as int));
    }
}

/// Appends `n` space characters to `out`.
pub fn push_spaces(out: &mut String, n: usize)
    ensures
        final(out)@ == old(out)@ + spaces(n as int),
{
    let mut i: usize = 0;
    while i < n
        invariant
            i <= n,
            out@ == old(out)@ + spaces(i as int),
        decreases n - i,
    {
        proof {
            reveal_strlit(" ");
        }
        out.append(" ");
        proof {
            assert(spaces(i as int).push(' ') =~= spaces(i + 1));
            assert(old(out)@ + spaces(i as int) + " "@ =~= old(out)@ + spaces(i + 1));
        }
        i = i + 1;
    }
    proof {
        assert(out@ =~= old(out)@ + spaces(n as int));
    }
}

/// Appends `s` padded on the left with spaces to width `w`.
pub fn push_pad_left(out: &mut String, s: &str, w: usize)
    ensures
        final(out)@ == old(out)@ + pad_left_text(s@, w as int),
{
    let len = s.unicode_len();
    if len >= w {
        out.append(s);
    } else {
        push_spaces(out, w - len);
        out.append(s);
        proof {
            assert(old(out)@ + spaces(w - s@.len()) + s@
                =~= old(out)@ + pad_left_text(s@, w as int));
        }
    }
}

/// Appends `s` padded on the right with spaces to width `w`.
pub fn push_pad_right(out: &mut String, s: &str, w: usize)
    ensures
        final(out)@ == old(out)@ + pad_right_text(s@, w as int),
{
    let len = s.unicode_len();
    out.append(s);
    if len < w {
        push_spaces(out, w - len);
        proof {
            assert(old(out)@ + s@ + spaces(w - s@.len())
                =~= old(out)@ + pad_right_text(s@, w as int));
        }
    }
}

/// The `HH:MM` string of the wall-clock time `now + delta` (both in seconds).
pub fn clock_string(now: u64, delta: u64) -> (r: String)
    requires
        delta <= u64::MAX - 86400,
    ensures
        r@ == clock_text(now as int + delta as int),
{
    let t = (now % 86400 + delta % 86400) % 86400;
    proof {
        lemma_add_mod_noop(now as int, delta as int, 86400);
    }
    let h = t / 3600;
    let m = (t % 3600) / 60;
    proof {
        assert(86400 == 3600 * 24);
        lemma_mod_mod(now as int + delta as int, 3600, 24);
        assert(h as int == hour_of_day(now as int + delta as int));
        assert(m as int == minute_of_hour(now as int + delta as int));
    }
    let mut r = String::new();
    push_two_digits(&mut r, h);
    proof {
        reveal_strlit(":");
    }
    r.append(":");
    push_two_digits(&mut r, m);
    proof {
        assert(Seq::<char>::empty() + two_digit_text(h as int) + ":"@
            + two_digit_text(m as int) =~= clock_text(now as int + delta as int));
    }
    r
}

} // verus!
