use vstd::prelude::*;

verus! {

/// Appends one character to a string (`String::push`).
#[verifier::external_body]
pub(crate) fn push_char(s: &mut String, c: char)
    ensures
        final(s)@ == old(s)@.push(c),
{
    s.push(c)
}

/// The character of a decimal digit.
pub open spec fn digit_char(d: nat) -> char
    recommends
        d < 10,
{
    (48 + d) as char
}

/// Decimal representation of a natural number, most significant digit first,
/// without leading zeros.
pub open spec fn nat_decimal(n: nat) -> Seq<char>
    decreases n,
{
    if n < 10 {
        seq![digit_char(n)]
    } else {
        nat_decimal(n / 10).push(digit_char(n % 10))
    }
}

/// Decimal representation of an integer, with a leading `-` when negative.
pub open spec fn int_decimal(n: int) -> Seq<char> {
    if n < 0 {
        seq!['-'] + nat_decimal((-n) as nat)
    } else {
        nat_decimal(n as nat)
    }
}

fn digit(d: u64) -> (c: char)
    requires
        d < 10,
    ensures
        c == digit_char(d as nat),
{
    let b: u8 = d as u8;
    let c = (b + 48u8) as char;
    c
}

/// Appends the decimal representation of `n`.
pub fn push_decimal(s: &mut String, n: u64)
    ensures
        final(s)@ == old(s)@ + nat_decimal(n as nat),
    decreases n,
{
    if n >= 10 {
        push_decimal(s, n / 10);
    }
    push_char(s, digit(n % 10));
    proof {
        assert(old(s)@ + nat_decimal(n as nat) =~= if n >= 10 {
            (old(s)@ + nat_decimal((n / 10) as nat)).push(digit_char((n % 10) as nat))
        } else {
            old(s)@.push(digit_char((n % 10) as nat))
        });
    }
}

/// Decimal representation of a 32-bit integer, as `i32`'s `Display` writes it.
pub fn i32_decimal(x: i32) -> (s: String)
    ensures
        s@ == int_decimal(x as int),
{
    let mut s = String::new();
    if x < 0 {
        push_char(&mut s, '-');
        let magnitude: u64 = (0i64 - (x as i64)) as u64;
        push_decimal(&mut s, magnitude);
    } else {
        push_decimal(&mut s, x as u64);
    }
    s
}

} // verus!
