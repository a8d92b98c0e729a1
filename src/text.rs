use vstd::prelude::*;

verus! {

/// The ASCII character of decimal digit `d`.
pub open spec fn digit_char(d: nat) -> char {
    if d == 0 { '0' }
    else if d == 1 { '1' }
    else if d == 2 { '2' }
    else if d == 3 { '3' }
    else if d == 4 { '4' }
    else if d == 5 { '5' }
    else if d == 6 { '6' }
    else if d == 7 { '7' }
    else if d == 8 { '8' }
    else { '9' }
}

/// Decimal digits of `n`, most significant first, without leading zeros.
pub open spec fn decimal(n: nat) -> Seq<char>
    decreases n,
{
    if n < 10 {
        seq![digit_char(n)]
    } else {
        decimal(n / 10).push(digit_char(n % 10))
    }
}

/// `n` as Rust's `{}` prints an integer: a minus sign, then the digits of
/// its magnitude.
pub open spec fn signed_decimal(n: int) -> Seq<char> {
    if n < 0 {
        seq!['-'] + decimal((-n) as nat)
    } else {
        decimal(n as nat)
    }
}

/// `n` as Rust's `{:02}` prints an integer: zero-padded to width two, the
/// sign counting toward the width.
pub open spec fn padded2(n: int) -> Seq<char> {
    if 0 <= n < 10 {
        seq!['0'] + decimal(n as nat)
    } else {
        signed_decimal(n)
    }
}

fn digit_str(d: u64) -> (r: &'static str)
    requires
        d < 10,
    ensures
        r@ == seq![digit_char(d as nat)],
{
    proof {
        reveal_strlit("0");
        reveal_strlit("1");
        reveal_strlit("2");
        reveal_strlit("3");
        reveal_strlit("4");
        reveal_strlit("5");
        reveal_strlit("6");
        reveal_strlit("7");
        reveal_strlit("8");
        reveal_strlit("9");
    }
    if d == 0 { "0" }
    else if d == 1 { "1" }
    else if d == 2 { "2" }
    else if d == 3 { "3" }
    else if d == 4 { "4" }
    else if d == 5 { "5" }
    else if d == 6 { "6" }
    else if d == 7 { "7" }
    else if d == 8 { "8" }
    else { "9" }
}

/// Appends the decimal digits of `n` to `s`.
pub fn push_decimal(s: &mut String, n: u64)
    ensures
        final(s)@ == old(s)@ + decimal(n as nat),
    decreases n,
{
    if n >= 10 {
        push_decimal(s, n / 10);
    }
    s.append(digit_str(n % 10));
    proof {
        if n >= 10 {
            assert(old(s)@ + decimal(n as nat) =~= old(s)@ + decimal((n / 10) as nat) + seq![digit_char((n % 10) as nat)]);
        } else {
            assert(decimal(n as nat) =~= seq![digit_char((n % 10) as nat)]);
        }
    }
}

/// Appends the integer whose sign is `neg` and whose magnitude is `mag`, as
/// `{}` prints it.
pub fn push_signed(s: &mut String, neg: bool, mag: u64)
    ensures
        final(s)@ == old(s)@ + signed_decimal(if neg { -(mag as int) } else { mag as int }),
{
    proof {
        reveal_strlit("-");
    }
    if neg && mag > 0 {
        s.append("-");
        push_decimal(s, mag);
        assert(final(s)@ =~= old(s)@ + signed_decimal(-(mag as int)));
    } else {
        push_decimal(s, mag);
    }
}

/// Appends the integer whose sign is `neg` and whose magnitude is `mag`, as
/// `{:02}` prints it.
pub fn push_padded2(s: &mut String, neg: bool, mag: u64)
    ensures
        final(s)@ == old(s)@ + padded2(if neg { -(mag as int) } else { mag as int }),
{
    proof {
        reveal_strlit("0");
    }
    if (!neg || mag == 0) && mag < 10 {
        s.append("0");
        push_decimal(s, mag);
        assert(final(s)@ =~= old(s)@ + padded2(mag as int));
    } else {
        push_signed(s, neg, mag);
    }
}

} // verus!
