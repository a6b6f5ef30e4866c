//! Conversions between `String`/`&str` and `Vec<char>`.
//!
//! The serializer and parser in this crate work over `Vec<char>`, whose
//! contents Verus can reason about element by element. The two conversions
//! below go through std's iterators, which vstd gives no specification, so
//! they are trusted with the evident contract: the character sequence is
//! unchanged.

use vstd::prelude::*;

verus! {

/// Relies on str::chars and Iterator::collect: yields exactly the characters
/// of the string, in order.
#[verifier::external_body]
pub fn str_to_chars(s: &str) -> (r: Vec<char>)
    ensures
        r@ == s@,
{
    s.chars().collect()
}

/// Relies on String::from_iter: builds the string holding exactly the given
/// characters, in order.
#[verifier::external_body]
pub fn chars_to_string(v: &Vec<char>) -> (r: String)
    ensures
        r@ == v@,
{
    v.iter().collect()
}

/// Appends every character of `lit` to `out`.
pub fn push_str_chars(out: &mut Vec<char>, lit: &str)
    ensures
        final(out)@ == old(out)@ + lit@,
{
    let l = str_to_chars(lit);
    let n = l.len();
    let mut k: usize = 0;
    while k < n
        invariant
            n == l@.len(),
            k <= n,
            l@ == lit@,
            out@ == old(out)@ + lit@.subrange(0, k as int),
        decreases n - k,
    {
        out.push(l[k]);
        k += 1;
        proof {
            assert(out@ =~= old(out)@ + lit@.subrange(0, k as int));
        }
    }
    proof {
        assert(out@ =~= old(out)@ + lit@);
    }
}

} // verus!
