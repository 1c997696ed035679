use vstd::prelude::*;
use vstd::string::{StrSliceExecFns, StringExecFns};

verus! {

/// The sixteen digits, in order of value.
pub open spec fn digits() -> Seq<char> {
    "0123456789ABCDEF"@
}

/// The upper-case digit of value `d`, for `d < 16`.
pub open spec fn digit(d: int) -> char {
    digits()[d]
}

/// `n` in decimal, without leading zeros.
pub open spec fn decimal(n: int) -> Seq<char>
    decreases n,
{
    if n < 10 {
        seq![digit(n)]
    } else {
        decimal(n / 10) + seq![digit(n % 10)]
    }
}

/// The low twelve bits of `a` as three upper-case hexadecimal digits.
pub open spec fn hex3(a: int) -> Seq<char> {
    seq![digit((a / 256) % 16), digit((a / 16) % 16), digit(a % 16)]
}

/// Appends the digit of value `d`.
pub fn push_digit(s: &mut String, d: u8)
    requires
        d < 16,
    ensures
        final(s)@ == old(s)@ + seq![digit(d as int)],
{
    let all = "0123456789ABCDEF";
    proof {
        reveal_strlit("0123456789ABCDEF");
    }
    let one = all.substring_char(d as usize, d as usize + 1);
    assert(one@ =~= seq![digit(d as int)]);
    s.append(one);
}

/// Appends `n` in decimal.
pub fn push_decimal(s: &mut String, n: u8)
    ensures
        final(s)@ == old(s)@ + decimal(n as int),
{
    let ghost start = s@;
    if n >= 100 {
        push_digit(s, n / 100);
    }
    if n >= 10 {
        push_digit(s, (n / 10) % 10);
    }
    push_digit(s, n % 10);
    proof {
        reveal_with_fuel(decimal, 3);
        if n >= 100 {
            assert(decimal((n / 10) as int) == decimal((n / 100) as int) + seq![
                digit(((n / 10) % 10) as int),
            ]);
        }
    }
    assert(s@ =~= start + decimal(n as int));
}

/// Appends the low twelve bits of `a` as three hexadecimal digits.
pub fn push_hex3(s: &mut String, a: u16)
    ensures
        final(s)@ == old(s)@ + hex3(a as int),
{
    let ghost start = s@;
    push_digit(s, ((a / 256) % 16) as u8);
    push_digit(s, ((a / 16) % 16) as u8);
    push_digit(s, (a % 16) as u8);
    assert(s@ =~= start + hex3(a as int));
}

} // verus!
