//! Text forms of a count of seconds: decimal numbers and clock faces.
use vstd::prelude::*;

verus! {

/// The decimal digit for `d` (meaningful for `d < 10`).
pub open spec fn digit_char(d: nat) -> char {
    seq!['0', '1', '2', '3', '4', '5', '6', '7', '8', '9'][d as int]
}

/// The decimal form of `n`, without leading zeros.
pub open spec fn decimal(n: nat) -> Seq<char>
    decreases n,
{
    if n < 10 {
        seq![digit_char(n)]
    } else {
        decimal(n / 10) + seq![digit_char(n % 10)]
    }
}

/// The decimal form of `n`, padded with zeros to at least two digits.
pub open spec fn padded2(n: nat) -> Seq<char> {
    if n < 10 {
        seq!['0'] + decimal(n)
    } else {
        decimal(n)
    }
}

/// `MM:SS` of `total` seconds; the minutes are not capped at 59.
pub open spec fn minutes_text(total: nat) -> Seq<char> {
    padded2(total / 60) + seq![':'] + padded2(total % 60)
}

/// `MM:SS` below one hour, `H:MM:SS` from one hour on.
pub open spec fn clock_text(total: nat) -> Seq<char> {
    let h = total / 3600;
    let m = (total % 3600) / 60;
    let s = total % 60;
    if h > 0 {
        decimal(h) + seq![':'] + padded2(m) + seq![':'] + padded2(s)
    } else {
        padded2(m) + seq![':'] + padded2(s)
    }
}

fn push_digit(out: &mut String, d: u32)
    requires
        d < 10,
    ensures
        final(out)@ == old(out)@.push(digit_char(d as nat)),
{
    let digits = "0123456789";
    proof {
        reveal_strlit("0123456789");
    }
    let one = digits.substring_ascii(d as usize, d as usize + 1);
    assert(one@ =~= seq![digit_char(d as nat)]);
    out.append(one);
}

/// Appends the decimal form of `n`.
pub fn push_decimal(out: &mut String, n: u32)
    ensures
        final(out)@ == old(out)@ + decimal(n as nat),
    decreases n,
{
    if n >= 10 {
        push_decimal(out, n / 10);
    }
    push_digit(out, n % 10);
    assert(final(out)@ =~= old(out)@ + decimal(n as nat));
}

/// Appends the decimal form of `n`, padded with zeros to two digits.
pub fn push_padded2(out: &mut String, n: u32)
    ensures
        final(out)@ == old(out)@ + padded2(n as nat),
{
    if n < 10 {
        push_digit(out, 0);
    }
    push_decimal(out, n);
    assert(final(out)@ =~= old(out)@ + padded2(n as nat));
}

/// `MM:SS` of `total` seconds, minutes uncapped.
pub fn format_minutes(total: u32) -> (r: String)
    ensures
        r@ == minutes_text(total as nat),
{
    let mut out = String::new();
    push_padded2(&mut out, total / 60);
    out.append(":");
    push_padded2(&mut out, total % 60);
    proof {
        reveal_strlit(":");
    }
    assert(out@ =~= minutes_text(total as nat));
    out
}

/// `MM:SS` below one hour, `H:MM:SS` from one hour on.
pub fn format_clock(total: u32) -> (r: String)
    ensures
        r@ == clock_text(total as nat),
{
    let h = total / 3600;
    let m = (total % 3600) / 60;
    let s = total % 60;
    let mut out = String::new();
    if h > 0 {
        push_decimal(&mut out, h);
        out.append(":");
    }
    push_padded2(&mut out, m);
    out.append(":");
    push_padded2(&mut out, s);
    proof {
        reveal_strlit(":");
    }
    assert(out@ =~= clock_text(total as nat));
    out
}

} // verus!
