//! Decimal text of the integer fields that the output formats print.

use vstd::prelude::*;

verus! {

/// Decimal digit character of a value below ten.
pub open spec fn dec_digit(d: int) -> char {
    if d == 0 {
        '0'
    } else if d == 1 {
        '1'
    } else if d == 2 {
        '2'
    } else if d == 3 {
        '3'
    } else if d == 4 {
        '4'
    } else if d == 5 {
        '5'
    } else if d == 6 {
        '6'
    } else if d == 7 {
        '7'
    } else if d == 8 {
        '8'
    } else {
        '9'
    }
}

/// Decimal text of a natural number, most significant digit first.
pub open spec fn dec_str(n: nat) -> Seq<char>
    decreases n,
{
    if n < 10 {
        seq![dec_digit(n as int)]
    } else {
        dec_str(n / 10) + seq![dec_digit((n % 10) as int)]
    }
}

/// Decimal text of an integer: a minus sign ahead of the magnitude.
pub open spec fn dec_str_signed(v: int) -> Seq<char> {
    if v >= 0 {
        dec_str(v as nat)
    } else {
        seq!['-'] + dec_str((-v) as nat)
    }
}

/// Relies on String::push: appends one character.
#[verifier::external_body]
pub(crate) fn push_char(s: &mut String, c: char)
    ensures
        final (s)@ == old(s)@ + seq![c],
{
    s.push(c);
}

fn exec_dec_digit(d: u64) -> (c: char)
    requires
        d < 10,
    ensures
        c == dec_digit(d as int),
{
    if d == 0 {
        '0'
    } else if d == 1 {
        '1'
    } else if d == 2 {
        '2'
    } else if d == 3 {
        '3'
    } else if d == 4 {
        '4'
    } else if d == 5 {
        '5'
    } else if d == 6 {
        '6'
    } else if d == 7 {
        '7'
    } else if d == 8 {
        '8'
    } else {
        '9'
    }
}

/// Decimal text of an unsigned value.
pub fn u64_to_string(n: u64) -> (s: String)
    ensures
        s@ == dec_str(n as nat),
{
    let mut digits: Vec<char> = Vec::new();
    let mut m: u64 = n;
    loop
        invariant_except_break
            dec_str(n as nat) == dec_str(m as nat) + digits@.reverse(),
        ensures
            dec_str(n as nat) == digits@.reverse(),
        decreases m,
    {
        let ghost pre = digits@;
        let d: u64 = m % 10;
        digits.push(exec_dec_digit(d));
        proof {
            assert(digits@.reverse() =~= seq![dec_digit(d as int)] + pre.reverse());
            if m >= 10 {
                assert(dec_str(m as nat) + pre.reverse() =~= dec_str((m as nat) / 10) + (seq![
                    dec_digit(d as int),
                ] + pre.reverse()));
                assert((m as nat) / 10 == (m / 10) as nat);
            } else {
                assert(dec_str(m as nat) + pre.reverse() =~= seq![dec_digit(d as int)]
                    + pre.reverse());
            }
        }
        m = m / 10;
        if m == 0 {
            break;
        }
    }
    let mut s = String::new();
    let mut i: usize = digits.len();
    while i > 0
        invariant
            i <= digits@.len(),
            dec_str(n as nat) == digits@.reverse(),
            s@ == digits@.reverse().take(digits@.len() - i),
        decreases i,
    {
        i = i - 1;
        push_char(&mut s, digits[i]);
        proof {
            assert(s@ =~= digits@.reverse().take(digits@.len() - i));
        }
    }
    proof {
        assert(s@ =~= dec_str(n as nat));
    }
    s
}

/// Decimal text of a signed 64-bit value.
pub fn i64_to_string(v: i64) -> (s: String)
    ensures
        s@ == dec_str_signed(v as int),
{
    if v >= 0 {
        u64_to_string(v as u64)
    } else {
        let mag: u64 = if v == i64::MIN {
            0x8000_0000_0000_0000u64
        } else {
            (-v) as u64
        };
        let mut s = String::new();
        push_char(&mut s, '-');
        let tail = u64_to_string(mag);
        s.append(tail.as_str());
        proof {
            assert(s@ =~= dec_str_signed(v as int));
        }
        s
    }
}

/// Decimal text of a signed 32-bit value.
pub fn i32_to_string(v: i32) -> (s: String)
    ensures
        s@ == dec_str_signed(v as int),
{
    i64_to_string(v as i64)
}

} // verus!
