//! Decimal rendering of integers, used for timestamps in branch names and
//! workspace directory names.

use vstd::prelude::*;

use crate::chars::string_from_chars;

verus! {

pub open spec fn digit_char(d: int) -> char
    recommends
        0 <= d < 10,
{
    ((('0' as u8) + d) as char)
}

/// The decimal digits of `n`, most significant first.
pub open spec fn dec_of(n: nat) -> Seq<char>
    decreases n,
{
    if n < 10 {
        seq![digit_char(n as int)]
    } else {
        dec_of(n / 10).push(digit_char((n % 10) as int))
    }
}

/// The decimal rendering of a signed value: a `-` before the magnitude when
/// negative.
pub open spec fn dec_signed(t: int) -> Seq<char> {
    if t >= 0 {
        dec_of(t as nat)
    } else {
        seq!['-'] + dec_of((-t) as nat)
    }
}

fn push_dec(n: u64, out: &mut Vec<char>)
    ensures
        final(out)@ == old(out)@ + dec_of(n as nat),
    decreases n,
{
    if n < 10 {
        out.push((('0' as u8) + (n as u8)) as char);
        assert(out@ =~= old(out)@ + dec_of(n as nat));
    } else {
        push_dec(n / 10, out);
        out.push((('0' as u8) + ((n % 10) as u8)) as char);
        assert(out@ =~= old(out)@ + dec_of(n as nat));
    }
}

/// `n` in decimal.
pub fn u64_dec_string(n: u64) -> (r: String)
    ensures
        r@ == dec_of(n as nat),
{
    let mut v: Vec<char> = Vec::new();
    push_dec(n, &mut v);
    assert(v@ =~= dec_of(n as nat));
    string_from_chars(&v)
}

/// `t` in decimal, with a leading `-` when negative.
pub fn i64_dec_string(t: i64) -> (r: String)
    ensures
        r@ == dec_signed(t as int),
{
    if t >= 0 {
        u64_dec_string(t as u64)
    } else {
        let mag: u64 = if t == i64::MIN {
            9223372036854775808u64
        } else {
            (-t) as u64
        };
        assert(mag == -(t as int));
        let mut v: Vec<char> = vec!['-'];
        push_dec(mag, &mut v);
        assert(v@ =~= dec_signed(t as int));
        string_from_chars(&v)
    }
}

} // verus!
