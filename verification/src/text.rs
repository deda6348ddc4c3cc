use vstd::prelude::*;

verus! {

/// Number of spaces that follow the bar of one indentation step.
pub const TAB_WIDTH: usize = 4;

/// Appends one character to a string.
///
/// Trusted: calls `String::push`, which std documents as appending the given
/// `char` to the end of the string; the contract says exactly that.
#[verifier::external_body]
fn push_char(s: &mut String, c: char)
    ensures
        final(s)@ == old(s)@.push(c),
{
    s.push(c)
}

/// The text made of `times` copies of `c`.
pub open spec fn spec_repeat(c: char, times: nat) -> Seq<char> {
    Seq::new(times, |_i: int| c)
}

/// Repeats a character a certain amount of times.
pub fn repeat_char(c: char, times: usize) -> (r: String)
    ensures
        r@ == spec_repeat(c, times as nat),
{
    let mut r = String::new();
    let mut i: usize = 0;
    while i < times
        invariant
            i <= times,
            r@ == spec_repeat(c, i as nat),
        decreases times - i,
    {
        push_char(&mut r, c);
        i = i + 1;
        assert(r@ =~= spec_repeat(c, i as nat));
    }
    r
}


/// One indentation step: a bar followed by `TAB_WIDTH` spaces.
pub open spec fn tab_unit() -> Seq<char> {
    seq!['|'] + spec_repeat(' ', TAB_WIDTH as nat)
}

/// The indentation printed for nesting depth `depth`: `depth` steps.
pub open spec fn tab_text(depth: nat) -> Seq<char>
    decreases depth,
{
    if depth == 0 {
        Seq::empty()
    } else {
        tab_text((depth - 1) as nat) + tab_unit()
    }
}

/// Tabs to the correct depth: appends `depth` indentation steps to `out`.
pub fn fmt_tab(out: &mut String, depth: usize)
    ensures
        final(out)@ == old(out)@ + tab_text(depth as nat),
{
    if depth != 0 {
        let mut i: usize = 0;
        while i < depth
            invariant
                i <= depth,
                out@ == old(out)@ + tab_text(i as nat),
            decreases depth - i,
        {
            push_char(out, '|');
            let spaces = repeat_char(' ', TAB_WIDTH);
            out.append(spaces.as_str());
            i = i + 1;
            assert(out@ =~= old(out)@ + tab_text(i as nat));
        }
    } else {
        assert(out@ =~= old(out)@ + tab_text(0));
    }
}

/// The decimal digit for `d` (meant for `d < 10`).
pub open spec fn digit_char(d: nat) -> char {
    if d == 0 {
        '0'
    } else if d == 1 {
        '1'
    } else if d == 2 {
        '2'
    } else if d == 3 {
        '3'
    } else if d == 4 {
        '4'
    } else if d == 5 {
        '5'
    } else if d == 6 {
        '6'
    } else if d == 7 {
        '7'
    } else if d == 8 {
        '8'
    } else {
        '9'
    }
}

/// The decimal text of a natural number, without leading zeros.
pub open spec fn decimal(n: nat) -> Seq<char>
    decreases n,
{
    if n < 10 {
        seq![digit_char(n)]
    } else {
        decimal(n / 10).push(digit_char(n % 10))
    }
}

/// The decimal text of an integer: a minus sign before the digits of a negative one.
pub open spec fn decimal_signed(i: int) -> Seq<char> {
    if i < 0 {
        seq!['-'] + decimal((-i) as nat)
    } else {
        decimal(i as nat)
    }
}

fn digit(d: u64) -> (c: char)
    requires
        d < 10,
    ensures
        c == digit_char(d as nat),
{
    if d == 0 {
        '0'
    } else if d == 1 {
        '1'
    } else if d == 2 {
        '2'
    } else if d == 3 {
        '3'
    } else if d == 4 {
        '4'
    } else if d == 5 {
        '5'
    } else if d == 6 {
        '6'
    } else if d == 7 {
        '7'
    } else if d == 8 {
        '8'
    } else {
        '9'
    }
}

/// Appends the decimal text of `n` to `out`.
pub fn push_decimal(out: &mut String, n: u64)
    ensures
        final(out)@ == old(out)@ + decimal(n as nat),
    decreases n,
{
    if n >= 10 {
        push_decimal(out, n / 10);
    }
    push_char(out, digit(n % 10));
    assert(out@ =~= old(out)@ + decimal(n as nat));
}

/// Appends the decimal text of `i` to `out`, with a minus sign when it is negative.
pub fn push_decimal_signed(out: &mut String, i: isize)
    ensures
        final(out)@ == old(out)@ + decimal_signed(i as int),
{
    if i < 0 {
        push_char(out, '-');
        let wide: i128 = i as i128;
        let magnitude: u64 = (-wide) as u64;
        push_decimal(out, magnitude);
        assert(out@ =~= old(out)@ + decimal_signed(i as int));
    } else {
        push_decimal(out, i as u64);
    }
}

} // verus!
