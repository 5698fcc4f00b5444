//! Small verified helpers for taking strings apart and putting them back
//! together: character vectors, decimal numerals, and the byte narrowing used
//! by the render grid.

use vstd::prelude::*;
use vstd::std_specs::iter::IteratorSpec;

verus! {

/// Collects the characters of a string slice into a vector, so that the
/// character at each index is directly addressable.
pub fn str_chars(s: &str) -> (r: Vec<char>)
    ensures
        r@ == s@,
{
    let mut it = s.chars();
    let mut out: Vec<char> = Vec::new();
    loop
        invariant
            out@ + it.remaining() == s@,
            it.decrease() is Some,
        ensures
            out@ == s@,
        decreases it.decrease()->0,
    {
        let ghost prev = it.remaining();
        match it.next() {
            Some(c) => {
                proof {
                    assert(out@.push(c) + prev.drop_first() =~= out@ + prev);
                }
                out.push(c);
            },
            None => {
                proof {
                    assert(out@ =~= s@);
                }
                break;
            },
        }
    }
    out
}

/// Relies on `String::from_iter` (through `Iterator::collect` over the cloned
/// characters): collecting the characters of a vector yields the string of
/// exactly those characters, in order.
#[verifier::external_body]
pub fn chars_to_string(v: &Vec<char>) -> (s: String)
    ensures
        s@ == v@,
{
    v.iter().collect()
}

/// The decimal digit character for `d`.
pub open spec fn digit_char(d: int) -> char
    recommends
        0 <= d <= 9,
{
    ((48 + d) as u8) as char
}

/// The decimal numeral of `n`, most significant digit first.
pub open spec fn decimal_digits(n: int) -> Seq<char>
    recommends
        n >= 0,
    decreases n,
{
    if n < 10 {
        seq![digit_char(n)]
    } else {
        decimal_digits(n / 10).push(digit_char(n % 10))
    }
}

fn push_decimal(n: usize, out: &mut Vec<char>)
    ensures
        final(out)@ == old(out)@ + decimal_digits(n as int),
    decreases n,
{
    let ghost base = out@;
    if n >= 10 {
        push_decimal(n / 10, out);
    }
    let d = (n % 10) as u8;
    out.push((48 + d) as char);
    proof {
        assert(out@ =~= base + decimal_digits(n as int));
    }
}

/// The decimal numeral of `n` as a string.
pub fn decimal_string(n: usize) -> (s: String)
    ensures
        s@ == decimal_digits(n as int),
{
    let mut v: Vec<char> = Vec::new();
    push_decimal(n, &mut v);
    proof {
        assert(v@ =~= decimal_digits(n as int));
    }
    chars_to_string(&v)
}

/// The byte a grid cell stores for a character: the code point reduced modulo
/// 256, matching a plain `char`-to-byte narrowing.
pub open spec fn char_byte(c: char) -> u8 {
    ((c as int) % 256) as u8
}

/// Narrows a character to the byte stored in the grid.
pub fn char_to_byte(c: char) -> (b: u8)
    ensures
        b == char_byte(c),
{
    ((c as u32) % 256) as u8
}

} // verus!
