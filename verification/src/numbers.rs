use vstd::prelude::*;

verus! {

/// The character for a digit.
pub open spec fn digit_char(d: int) -> char {
    (0x30 + d) as u8 as char
}

/// A natural number in decimal digits, without leading zeros.
pub open spec fn natural_text(n: nat) -> Seq<char>
    decreases n,
{
    if n < 10 {
        seq![digit_char(n as int)]
    } else {
        natural_text(n / 10).push(digit_char((n % 10) as int))
    }
}

/// An integer in decimal digits, with `-` before a negative one.
pub open spec fn integer_text(n: int) -> Seq<char> {
    if n < 0 {
        seq!['-'] + natural_text((-n) as nat)
    } else {
        natural_text(n as nat)
    }
}

/// The character for a digit.
fn digit_of(d: u64) -> (c: char)
    requires
        d < 10,
    ensures
        c == digit_char(d as int),
{
    (0x30 + d as u8) as char
}

/// Appends the decimal digits of `n` to `out`.
pub fn push_natural(out: &mut String, n: u64)
    ensures
        final(out)@ == old(out)@ + natural_text(n as nat),
{
    let mut low: Vec<char> = Vec::new();
    let mut m: u64 = n;
    while m >= 10
        invariant
            natural_text(n as nat) == natural_text(m as nat) + low@.reverse(),
        decreases m,
    {
        let d = digit_of(m % 10);
        low.push(d);
        m = m / 10;
    }
    out.push(digit_of(m));
    let mut i: usize = low.len();
    while i > 0
        invariant
            i <= low.len(),
            out@ == old(out)@ + natural_text(m as nat) + low@.reverse().take(low.len() - i),
        decreases i,
    {
        i -= 1;
        out.push(low[i]);
    }
}

/// Appends the decimal digits of `n` to `out`, with `-` before a negative number.
pub fn push_integer(out: &mut String, n: i32)
    ensures
        final(out)@ == old(out)@ + integer_text(n as int),
{
    if n < 0 {
        out.push('-');
        let positive: i64 = -(n as i64);
        push_natural(out, positive as u64);
    } else {
        push_natural(out, n as u64);
    }
}

} // verus!
