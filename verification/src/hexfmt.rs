//! Verified text formatting: lowercase hex encoding of byte strings and
//! decimal rendering of unsigned integers, each proved against a spec
//! function that defines the output character by character.

use vstd::prelude::*;
use vstd::string::StringExecFns;

verus! {

/// The character for one value below sixteen, lowercase.
pub open spec fn spec_hex_char(n: int) -> char
    recommends
        0 <= n < 16,
{
    if n == 0 {
        '0'
    } else if n == 1 {
        '1'
    } else if n == 2 {
        '2'
    } else if n == 3 {
        '3'
    } else if n == 4 {
        '4'
    } else if n == 5 {
        '5'
    } else if n == 6 {
        '6'
    } else if n == 7 {
        '7'
    } else if n == 8 {
        '8'
    } else if n == 9 {
        '9'
    } else if n == 10 {
        'a'
    } else if n == 11 {
        'b'
    } else if n == 12 {
        'c'
    } else if n == 13 {
        'd'
    } else if n == 14 {
        'e'
    } else {
        'f'
    }
}

/// Lowercase hex encoding of a byte string: two characters per byte, high
/// nibble first.
pub open spec fn spec_hex(b: Seq<u8>) -> Seq<char>
    decreases b.len(),
{
    if b.len() == 0 {
        Seq::empty()
    } else {
        spec_hex(b.drop_last()) + seq![
            spec_hex_char(b.last() as int / 16),
            spec_hex_char(b.last() as int % 16),
        ]
    }
}

/// Decimal rendering of an unsigned integer, most significant digit first,
/// with no leading zeros (a single zero for the value zero).
pub open spec fn spec_u64_string(n: u64) -> Seq<char>
    decreases n,
{
    if n < 10 {
        seq![spec_hex_char(n as int)]
    } else {
        spec_u64_string(n / 10) + seq![spec_hex_char((n % 10) as int)]
    }
}

fn hex_digit(n: u8) -> (r: &'static str)
    requires
        n < 16,
    ensures
        r@ == seq![spec_hex_char(n as int)],
{
    let s: &'static str = if n == 0 {
        "0"
    } else if n == 1 {
        "1"
    } else if n == 2 {
        "2"
    } else if n == 3 {
        "3"
    } else if n == 4 {
        "4"
    } else if n == 5 {
        "5"
    } else if n == 6 {
        "6"
    } else if n == 7 {
        "7"
    } else if n == 8 {
        "8"
    } else if n == 9 {
        "9"
    } else if n == 10 {
        "a"
    } else if n == 11 {
        "b"
    } else if n == 12 {
        "c"
    } else if n == 13 {
        "d"
    } else if n == 14 {
        "e"
    } else {
        "f"
    };
    proof {
        reveal_strlit("0");
        reveal_strlit("1");
        reveal_strlit("2");
        reveal_strlit("3");
        reveal_strlit("4");
        reveal_strlit("5");
        reveal_strlit("6");
        reveal_strlit("7");
        reveal_strlit("8");
        reveal_strlit("9");
        reveal_strlit("a");
        reveal_strlit("b");
        reveal_strlit("c");
        reveal_strlit("d");
        reveal_strlit("e");
        reveal_strlit("f");
        assert(s@ =~= seq![spec_hex_char(n as int)]);
    }
    s
}

/// Lowercase hex encoding of a byte slice.
pub fn hex_string(b: &[u8]) -> (r: String)
    ensures
        r@ == spec_hex(b@),
        r@.len() == 2 * b@.len(),
{
    let mut s = String::new();
    let mut i: usize = 0;
    while i < b.len()
        invariant
            i <= b@.len(),
            s@ == spec_hex(b@.take(i as int)),
            s@.len() == 2 * i,
        decreases b@.len() - i,
    {
        let byte = b[i];
        let hi = hex_digit(byte / 16);
        let lo = hex_digit(byte % 16);
        s.append(hi);
        s.append(lo);
        proof {
            assert(b@.take(i + 1).drop_last() =~= b@.take(i as int));
            assert(b@.take(i + 1).last() == b@[i as int]);
        }
        i = i + 1;
    }
    proof {
        assert(b@.take(b@.len() as int) =~= b@);
    }
    s
}

/// Decimal rendering of an unsigned integer.
pub fn u64_to_string(n: u64) -> (r: String)
    ensures
        r@ == spec_u64_string(n),
    decreases n,
{
    if n < 10 {
        let d = hex_digit(n as u8);
        let mut s = String::new();
        s.append(d);
        s
    } else {
        let mut s = u64_to_string(n / 10);
        let d = hex_digit((n % 10) as u8);
        s.append(d);
        s
    }
}

} // verus!
