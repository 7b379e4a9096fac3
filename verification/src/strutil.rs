//! Small verified helpers for moving between `&str`, `Vec<char>` and decimal
//! renderings of integers.

use vstd::prelude::*;

verus! {

/// The decimal digit character for `d % 10`.
pub open spec fn spec_digit_char(d: u64) -> char {
    ((48 + (d % 10)) as u8) as char
}

/// The decimal rendering of `n`, most significant digit first.
pub open spec fn spec_u64_dec(n: u64) -> Seq<char>
    decreases n,
{
    if n < 10 {
        seq![spec_digit_char(n)]
    } else {
        spec_u64_dec(n / 10) + seq![spec_digit_char(n % 10)]
    }
}

/// The decimal rendering of `n`, with a leading minus sign when negative.
pub open spec fn spec_i64_dec(n: i64) -> Seq<char> {
    if n < 0 {
        seq!['-'] + spec_u64_dec((-(n as int)) as u64)
    } else {
        spec_u64_dec(n as u64)
    }
}

fn digit_char(d: u64) -> (c: char)
    requires
        d < 10,
    ensures
        c == spec_digit_char(d),
{
    ((48 + d) as u8) as char
}

/// Renders `n` in decimal.
pub fn u64_dec_chars(n: u64) -> (r: Vec<char>)
    ensures
        r@ == spec_u64_dec(n),
    decreases n,
{
    if n < 10 {
        let mut v: Vec<char> = Vec::new();
        v.push(digit_char(n));
        proof {
            assert(v@ =~= seq![spec_digit_char(n)]);
        }
        v
    } else {
        let mut v = u64_dec_chars(n / 10);
        v.push(digit_char(n % 10));
        proof {
            assert(v@ =~= spec_u64_dec(n / 10) + seq![spec_digit_char(n % 10)]);
        }
        v
    }
}

/// Renders `n` in decimal, with a leading minus sign when negative.
pub fn i64_dec_chars(n: i64) -> (r: Vec<char>)
    ensures
        r@ == spec_i64_dec(n),
{
    if n < 0 {
        let mag: u64 = if n == i64::MIN {
            9223372036854775808u64
        } else {
            (-n) as u64
        };
        assert(mag == (-(n as int)) as u64);
        let mut v: Vec<char> = Vec::new();
        v.push('-');
        let mut digits = u64_dec_chars(mag);
        v.append(&mut digits);
        proof {
            assert(v@ =~= seq!['-'] + spec_u64_dec((-(n as int)) as u64));
        }
        v
    } else {
        u64_dec_chars(n as u64)
    }
}

/// The characters of `s`, in order.
pub fn str_to_chars(s: &str) -> (r: Vec<char>)
    ensures
        r@ == s@,
{
    let n = s.unicode_len();
    let mut v: Vec<char> = Vec::new();
    let mut i: usize = 0;
    while i < n
        invariant
            i <= n,
            n == s@.len(),
            v@ == s@.subrange(0, i as int),
        decreases n - i,
    {
        v.push(s.get_char(i));
        i = i + 1;
        proof {
            assert(v@ =~= s@.subrange(0, i as int));
        }
    }
    proof {
        assert(v@ =~= s@);
    }
    v
}

/// Relies on `String: FromIterator<char>` from std: collecting an iterator of
/// characters yields the string holding exactly those characters in order.
#[verifier::external_body]
pub fn chars_to_string(v: &Vec<char>) -> (r: String)
    ensures
        r@ == v@,
{
    v.iter().collect()
}

} // verus!
