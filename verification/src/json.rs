//! The canonical JSON wire format: compact (no whitespace), fields in a fixed
//! order, strings escaped the way common JSON emitters escape them (`\"`,
//! `\\`, `\b`, `\f`, `\n`, `\r`, `\t`, and `\u00XX` with lowercase hex for the
//! remaining control characters), integers in decimal with no leading zeros.
//!
//! This module holds the character-level building blocks: the escape map, the
//! decimal form of an integer, and the specification-level parsers that the
//! executable parsers are proved against.

use vstd::prelude::*;

verus! {

// ---------------------------------------------------------------------------
// Escaping
// ---------------------------------------------------------------------------

/// The lowercase hex digit for a value in [0, 16).
pub open spec fn hex_digit(d: int) -> char {
    if d == 0 { '0' } else if d == 1 { '1' } else if d == 2 { '2' }
    else if d == 3 { '3' } else if d == 4 { '4' } else if d == 5 { '5' }
    else if d == 6 { '6' } else if d == 7 { '7' } else if d == 8 { '8' }
    else if d == 9 { '9' } else if d == 10 { 'a' } else if d == 11 { 'b' }
    else if d == 12 { 'c' } else if d == 13 { 'd' } else if d == 14 { 'e' }
    else { 'f' }
}

/// How a single character appears inside a JSON string literal.
pub open spec fn esc_char(c: char) -> Seq<char> {
    if c == '"' { seq!['\\', '"'] }
    else if c == '\\' { seq!['\\', '\\'] }
    else if c == '\u{8}' { seq!['\\', 'b'] }
    else if c == '\u{c}' { seq!['\\', 'f'] }
    else if c == '\n' { seq!['\\', 'n'] }
    else if c == '\r' { seq!['\\', 'r'] }
    else if c == '\t' { seq!['\\', 't'] }
    else if (c as u32) < 32 {
        seq!['\\', 'u', '0', '0', hex_digit((c as u32) as int / 16), hex_digit((c as u32) as int % 16)]
    }
    else { seq![c] }
}

/// The escaped form of a whole string (without the surrounding quotes).
pub open spec fn esc_str(s: Seq<char>) -> Seq<char>
    decreases s.len(),
{
    if s.len() == 0 {
        Seq::empty()
    } else {
        esc_char(s[0]) + esc_str(s.drop_first())
    }
}

pub proof fn lemma_esc_str_push(s: Seq<char>, c: char)
    ensures
        esc_str(s.push(c)) == esc_str(s) + esc_char(c),
    decreases s.len(),
{
    if s.len() == 0 {
        assert(s.push(c).drop_first() =~= Seq::<char>::empty());
        assert(s.push(c)[0] == c);
        assert(esc_str(s.push(c)) =~= esc_char(c) + esc_str(Seq::<char>::empty()));
        assert(esc_str(s.push(c)) =~= esc_char(c));
        assert(esc_str(s) + esc_char(c) =~= esc_char(c));
    } else {
        lemma_esc_str_push(s.drop_first(), c);
        assert(s.push(c).drop_first() =~= s.drop_first().push(c));
        assert(s.push(c)[0] == s[0]);
        assert(esc_str(s) + esc_char(c) =~= esc_char(s[0]) + (esc_str(s.drop_first()) + esc_char(c)));
    }
}

/// The lowercase hex digit for `d`, executable.
pub fn hex_digit_exec(d: u8) -> (r: char)
    requires
        d < 16,
    ensures
        r == hex_digit(d as int),
{
    if d == 0 { '0' } else if d == 1 { '1' } else if d == 2 { '2' }
    else if d == 3 { '3' } else if d == 4 { '4' } else if d == 5 { '5' }
    else if d == 6 { '6' } else if d == 7 { '7' } else if d == 8 { '8' }
    else if d == 9 { '9' } else if d == 10 { 'a' } else if d == 11 { 'b' }
    else if d == 12 { 'c' } else if d == 13 { 'd' } else if d == 14 { 'e' }
    else { 'f' }
}

/// Appends the escaped form of `c` to `out`.
pub fn push_esc_char(out: &mut Vec<char>, c: char)
    ensures
        final(out)@ == old(out)@ + esc_char(c),
{
    if c == '"' {
        out.push('\\');
        out.push('"');
    } else if c == '\\' {
        out.push('\\');
        out.push('\\');
    } else if c == '\u{8}' {
        out.push('\\');
        out.push('b');
    } else if c == '\u{c}' {
        out.push('\\');
        out.push('f');
    } else if c == '\n' {
        out.push('\\');
        out.push('n');
    } else if c == '\r' {
        out.push('\\');
        out.push('r');
    } else if c == '\t' {
        out.push('\\');
        out.push('t');
    } else if (c as u32) < 32 {
        let v = c as u32;
        out.push('\\');
        out.push('u');
        out.push('0');
        out.push('0');
        out.push(hex_digit_exec((v / 16) as u8));
        out.push(hex_digit_exec((v % 16) as u8));
    } else {
        out.push(c);
    }
    proof {
        assert(out@ =~= old(out)@ + esc_char(c));
    }
}

/// Appends the escaped form of every character of `s` to `out`.
pub fn push_esc_str(out: &mut Vec<char>, s: &Vec<char>)
    ensures
        final(out)@ == old(out)@ + esc_str(s@),
{
    let n = s.len();
    let mut k: usize = 0;
    while k < n
        invariant
            n == s@.len(),
            k <= n,
            out@ == old(out)@ + esc_str(s@.subrange(0, k as int)),
        decreases n - k,
    {
        proof {
            lemma_esc_str_push(s@.subrange(0, k as int), s@[k as int]);
            assert(s@.subrange(0, k as int).push(s@[k as int]) =~= s@.subrange(0, k as int + 1));
        }
        push_esc_char(out, s[k]);
        k += 1;
    }
    proof {
        assert(s@.subrange(0, n as int) =~= s@);
    }
}

// ---------------------------------------------------------------------------
// Decimal form of integers
// ---------------------------------------------------------------------------

/// The decimal digits of a nonnegative integer, most significant first.
pub open spec fn dec_nat(n: int) -> Seq<char>
    decreases n,
{
    if n < 10 {
        seq![hex_digit(n)]
    } else {
        dec_nat(n / 10) + seq![hex_digit(n % 10)]
    }
}

/// The canonical decimal form of an integer: a `-` sign for negative values,
/// no leading zeros.
pub open spec fn dec_int(n: int) -> Seq<char> {
    if n < 0 {
        seq!['-'] + dec_nat(-n)
    } else {
        dec_nat(n)
    }
}

/// Appends the decimal form of `n` to `out`.
pub fn push_dec_u64(out: &mut Vec<char>, n: u64)
    ensures
        final(out)@ == old(out)@ + dec_nat(n as int),
    decreases n,
{
    if n < 10 {
        out.push(hex_digit_exec(n as u8));
        proof {
            assert(out@ =~= old(out)@ + dec_nat(n as int));
        }
    } else {
        push_dec_u64(out, n / 10);
        out.push(hex_digit_exec((n % 10) as u8));
        proof {
            assert(out@ =~= old(out)@ + dec_nat(n as int));
        }
    }
}

/// Appends the canonical decimal form of `n` to `out`.
pub fn push_dec_i64(out: &mut Vec<char>, n: i64)
    ensures
        final(out)@ == old(out)@ + dec_int(n as int),
{
    if n < 0 {
        out.push('-');
        let mag: u64 = if n == i64::MIN {
            9223372036854775808u64
        } else {
            (-n) as u64
        };
        assert(mag as int == -(n as int));
        push_dec_u64(out, mag);
        proof {
            assert(out@ =~= old(out)@ + dec_int(n as int));
        }
    } else {
        push_dec_u64(out, n as u64);
    }
}

// ---------------------------------------------------------------------------
// Specification-level parsers
// ---------------------------------------------------------------------------

pub open spec fn is_digit(c: char) -> bool {
    48 <= (c as u32) && (c as u32) <= 57
}

pub open spec fn digit_val(c: char) -> int {
    (c as u32) as int - 48
}

pub open spec fn is_hex_lc(c: char) -> bool {
    is_digit(c) || (97 <= (c as u32) && (c as u32) <= 102)
}

pub open spec fn hex_val(c: char) -> int {
    if is_digit(c) {
        digit_val(c)
    } else {
        (c as u32) as int - 87
    }
}

pub open spec fn all_digits(ds: Seq<char>) -> bool {
    forall|k: int| 0 <= k < ds.len() ==> is_digit(ds[k])
}

/// The numeric value of a digit string, most significant digit first.
pub open spec fn val_of(ds: Seq<char>) -> int
    decreases ds.len(),
{
    if ds.len() == 0 {
        0
    } else {
        val_of(ds.drop_last()) * 10 + digit_val(ds.last())
    }
}

pub open spec fn pow10(k: nat) -> int
    decreases k,
{
    if k == 0 {
        1
    } else {
        10 * pow10((k - 1) as nat)
    }
}

pub proof fn lemma_val_of_bound(ds: Seq<char>)
    requires
        all_digits(ds),
    ensures
        0 <= val_of(ds) < pow10(ds.len()),
    decreases ds.len(),
{
    if ds.len() > 0 {
        assert(all_digits(ds.drop_last()));
        lemma_val_of_bound(ds.drop_last());
        assert(0 <= digit_val(ds.last()) <= 9);
    }
}

/// The maximal run of decimal digits starting at `i`, with the position after it.
pub open spec fn sp_digits(s: Seq<char>, i: int) -> (Seq<char>, int)
    decreases s.len() - i,
{
    if 0 <= i && i < s.len() && is_digit(s[i]) {
        let r = sp_digits(s, i + 1);
        (seq![s[i]] + r.0, r.1)
    } else {
        (Seq::empty(), i)
    }
}

pub proof fn lemma_sp_digits_props(s: Seq<char>, i: int)
    requires
        0 <= i <= s.len(),
    ensures
        all_digits(sp_digits(s, i).0),
        sp_digits(s, i).1 == i + sp_digits(s, i).0.len(),
        sp_digits(s, i).1 <= s.len(),
        s.subrange(i, sp_digits(s, i).1) == sp_digits(s, i).0,
    decreases s.len() - i,
{
    if i < s.len() && is_digit(s[i]) {
        lemma_sp_digits_props(s, i + 1);
        let r = sp_digits(s, i + 1);
        assert(s.subrange(i, r.1) =~= seq![s[i]] + s.subrange(i + 1, r.1));
    } else {
        assert(s.subrange(i, i) =~= Seq::<char>::empty());
    }
}

/// A canonical unsigned decimal at `i`: at least one digit, no leading zero,
/// at most 19 digits.
pub open spec fn sp_uint(s: Seq<char>, i: int) -> Option<(int, int)> {
    let r = sp_digits(s, i);
    if r.0.len() == 0 {
        None
    } else if r.0.len() > 1 && r.0[0] == '0' {
        None
    } else if r.0.len() > 19 {
        None
    } else {
        Some((val_of(r.0), r.1))
    }
}

/// A canonical `i64` decimal at `i`: optional `-` sign (never on zero), value
/// within the `i64` range.
pub open spec fn sp_int(s: Seq<char>, i: int) -> Option<(int, int)> {
    if 0 <= i && i < s.len() && s[i] == '-' {
        match sp_uint(s, i + 1) {
            Some(r) => if r.0 > 0 && -r.0 >= i64::MIN { Some((-r.0, r.1)) } else { None },
            None => None,
        }
    } else {
        match sp_uint(s, i) {
            Some(r) => if r.0 <= i64::MAX { Some((r.0, r.1)) } else { None },
            None => None,
        }
    }
}

/// The named single-character escapes.
pub open spec fn esc_code(e: char) -> Option<char> {
    if e == '"' { Some('"') }
    else if e == '\\' { Some('\\') }
    else if e == 'b' { Some('\u{8}') }
    else if e == 'f' { Some('\u{c}') }
    else if e == 'n' { Some('\n') }
    else if e == 'r' { Some('\r') }
    else if e == 't' { Some('\t') }
    else { None }
}

/// The body of a JSON string starting at `i` (just after the opening quote),
/// up to and including the closing quote: the decoded characters and the
/// position after the closing quote.
pub open spec fn sp_string(s: Seq<char>, i: int) -> Option<(Seq<char>, int)>
    decreases s.len() - i,
{
    if i < 0 || i >= s.len() {
        None
    } else if s[i] == '"' {
        Some((Seq::empty(), i + 1))
    } else if s[i] == '\\' {
        if i + 1 < s.len() && s[i + 1] == 'u' {
            if i + 6 <= s.len() && s[i + 2] == '0' && s[i + 3] == '0'
                && is_hex_lc(s[i + 4]) && is_hex_lc(s[i + 5])
                && hex_val(s[i + 4]) * 16 + hex_val(s[i + 5]) < 32 {
                let c = (hex_val(s[i + 4]) * 16 + hex_val(s[i + 5])) as char;
                match sp_string(s, i + 6) {
                    Some(r) => Some((seq![c] + r.0, r.1)),
                    None => None,
                }
            } else {
                None
            }
        } else if i + 1 < s.len() && esc_code(s[i + 1]) is Some {
            match sp_string(s, i + 2) {
                Some(r) => Some((seq![esc_code(s[i + 1])->0] + r.0, r.1)),
                None => None,
            }
        } else {
            None
        }
    } else if (s[i] as u32) >= 32 {
        match sp_string(s, i + 1) {
            Some(r) => Some((seq![s[i]] + r.0, r.1)),
            None => None,
        }
    } else {
        None
    }
}

/// The literal `lit` read at `i`: the position after it, if it is there.
pub open spec fn sp_lit(s: Seq<char>, i: int, lit: Seq<char>) -> Option<int> {
    if 0 <= i && i + lit.len() <= s.len() && s.subrange(i, i + lit.len()) == lit {
        Some(i + lit.len())
    } else {
        None
    }
}

// ---------------------------------------------------------------------------
// The parsers read back what the emitters wrote
// ---------------------------------------------------------------------------

pub proof fn lemma_sp_lit_at(pre: Seq<char>, lit: Seq<char>, tail: Seq<char>)
    ensures
        sp_lit(pre + lit + tail, pre.len() as int, lit) == Some((pre.len() + lit.len()) as int),
{
    let s = pre + lit + tail;
    assert(s.subrange(pre.len() as int, (pre.len() + lit.len()) as int) =~= lit);
}

pub proof fn lemma_hex_digit_rt(d: int)
    requires
        0 <= d < 16,
    ensures
        is_hex_lc(hex_digit(d)),
        hex_val(hex_digit(d)) == d,
{
}

/// A string body written as `esc_str(x)` and a closing quote reads back as
/// exactly `x`.
pub proof fn lemma_sp_string_of_escaped(pre: Seq<char>, x: Seq<char>, tail: Seq<char>)
    ensures
        sp_string(pre + esc_str(x) + seq!['"'] + tail, pre.len() as int)
            == Some((x, (pre.len() + esc_str(x).len() + 1) as int)),
    decreases x.len(),
{
    let s = pre + esc_str(x) + seq!['"'] + tail;
    let i = pre.len() as int;
    if x.len() == 0 {
        assert(esc_str(x) =~= Seq::<char>::empty());
        assert(s[i] == '"');
        assert(x =~= Seq::<char>::empty());
    } else {
        let c = x[0];
        let x1 = x.drop_first();
        let e = esc_char(c);
        assert(esc_str(x) == e + esc_str(x1));
        assert(s =~= (pre + e) + esc_str(x1) + seq!['"'] + tail);
        lemma_sp_string_of_escaped(pre + e, x1, tail);
        let k = e.len() as int;
        assert(forall|j: int| 0 <= j < k ==> s[i + j] == e[j]);
        assert(seq![c] + x1 =~= x);
        if c == '"' || c == '\\' || c == '\u{8}' || c == '\u{c}' || c == '\n' || c == '\r'
            || c == '\t' {
            assert(s[i] == '\\' && s[i + 1] == e[1]);
            assert(esc_code(e[1]) == Some(c));
            assert(e[1] != 'u');
            assert(sp_string(s, i) == Some((x, i + esc_str(x).len() + 1)));
        } else if (c as u32) < 32 {
            let v = (c as u32) as int;
            lemma_hex_digit_rt(v / 16);
            lemma_hex_digit_rt(v % 16);
            assert(s[i] == '\\' && s[i + 1] == 'u' && s[i + 2] == '0' && s[i + 3] == '0');
            assert(s[i + 4] == hex_digit(v / 16) && s[i + 5] == hex_digit(v % 16));
            assert(hex_val(s[i + 4]) * 16 + hex_val(s[i + 5]) == v);
            vstd::utf8::char_u32_cast(c, c as u32);
            assert(((c as u32) as char) == c);
            assert((v as char) == c);
            assert(sp_string(s, i) == Some((x, i + esc_str(x).len() + 1)));
        } else {
            assert(s[i] == c);
            assert(sp_string(s, i) == Some((x, i + esc_str(x).len() + 1)));
        }
    }
}

/// A digit run followed by a non-digit reads back as exactly that run.
pub proof fn lemma_sp_digits_at(pre: Seq<char>, ds: Seq<char>, tail: Seq<char>)
    requires
        all_digits(ds),
        tail.len() == 0 || !is_digit(tail[0]),
    ensures
        sp_digits(pre + ds + tail, pre.len() as int) == (ds, (pre.len() + ds.len()) as int),
    decreases ds.len(),
{
    let s = pre + ds + tail;
    let i = pre.len() as int;
    if ds.len() == 0 {
        if i < s.len() {
            assert(s[i] == tail[0]);
        }
        assert(ds =~= Seq::<char>::empty());
    } else {
        assert(s[i] == ds[0]);
        assert(s =~= (pre + seq![ds[0]]) + ds.drop_first() + tail);
        assert(all_digits(ds.drop_first()));
        lemma_sp_digits_at(pre + seq![ds[0]], ds.drop_first(), tail);
        assert(seq![ds[0]] + ds.drop_first() =~= ds);
    }
}

pub proof fn lemma_dec_nat_props(n: int)
    requires
        0 <= n,
    ensures
        all_digits(dec_nat(n)),
        val_of(dec_nat(n)) == n,
        dec_nat(n).len() >= 1,
        n > 0 ==> dec_nat(n)[0] != '0',
        n < 10 ==> dec_nat(n).len() == 1,
    decreases n,
{
    if n < 10 {
        let d = seq![hex_digit(n)];
        assert(d.drop_last() =~= Seq::<char>::empty());
        assert(d.last() == hex_digit(n));
        assert(val_of(Seq::<char>::empty()) == 0);
        assert(is_digit(hex_digit(n)) && digit_val(hex_digit(n)) == n);
        assert(val_of(d) == digit_val(hex_digit(n)));
    } else {
        lemma_dec_nat_props(n / 10);
        let d = dec_nat(n);
        assert(d == dec_nat(n / 10) + seq![hex_digit(n % 10)]);
        assert(d.drop_last() =~= dec_nat(n / 10));
        assert(d.last() == hex_digit(n % 10));
        assert(is_digit(hex_digit(n % 10)) && digit_val(hex_digit(n % 10)) == n % 10);
        assert(val_of(d) == val_of(dec_nat(n / 10)) * 10 + (n % 10));
        assert(d[0] == dec_nat(n / 10)[0]);
    }
}

pub proof fn lemma_dec_nat_len(n: int, k: nat)
    requires
        0 <= n < pow10(k),
        1 <= k,
    ensures
        dec_nat(n).len() <= k,
    decreases k,
{
    if n < 10 {
        lemma_dec_nat_props(n);
    } else {
        assert(pow10(k) == 10 * pow10((k - 1) as nat));
        lemma_dec_nat_len(n / 10, (k - 1) as nat);
    }
}

/// A canonical `i64` decimal followed by a non-digit reads back as exactly
/// that value.
pub proof fn lemma_sp_int_at(pre: Seq<char>, n: int, tail: Seq<char>)
    requires
        i64::MIN <= n <= i64::MAX,
        tail.len() == 0 || !is_digit(tail[0]),
    ensures
        sp_int(pre + dec_int(n) + tail, pre.len() as int)
            == Some((n, (pre.len() + dec_int(n).len()) as int)),
{
    let s = pre + dec_int(n) + tail;
    let i = pre.len() as int;
    reveal_with_fuel(pow10, 20);
    if n >= 0 {
        assert(dec_int(n) == dec_nat(n));
        lemma_dec_nat_props(n);
        assert(n < pow10(19));
        lemma_dec_nat_len(n, 19);
        assert(s =~= pre + dec_nat(n) + tail);
        lemma_sp_digits_at(pre, dec_nat(n), tail);
        assert(s[i] == dec_nat(n)[0]);
        assert(is_digit(s[i]) && s[i] != '-');
        assert(dec_nat(n).len() > 1 ==> n >= 10);
    } else {
        let m = -n;
        assert(dec_int(n) == seq!['-'] + dec_nat(m));
        lemma_dec_nat_props(m);
        assert(m < pow10(19));
        lemma_dec_nat_len(m, 19);
        assert(s =~= (pre + seq!['-']) + dec_nat(m) + tail);
        lemma_sp_digits_at(pre + seq!['-'], dec_nat(m), tail);
        assert(s[i] == '-');
        assert(dec_nat(m).len() > 1 ==> m >= 10);
    }
}

// ---------------------------------------------------------------------------
// Executable parsers
// ---------------------------------------------------------------------------

pub fn is_digit_exec(c: char) -> (r: bool)
    ensures
        r == is_digit(c),
{
    let v = c as u32;
    48 <= v && v <= 57
}

/// Reads the literal `lit` at position `i`.
pub fn p_lit(s: &Vec<char>, i: usize, lit: &str) -> (r: Option<usize>)
    requires
        i <= s@.len(),
    ensures
        match r {
            Some(j) => sp_lit(s@, i as int, lit@) == Some(j as int) && i <= j <= s@.len(),
            None => sp_lit(s@, i as int, lit@) is None,
        },
{
    let l = crate::chars::str_to_chars(lit);
    let n = l.len();
    if n > s.len() - i {
        assert(sp_lit(s@, i as int, lit@) is None);
        return None;
    }
    let mut k: usize = 0;
    while k < n
        invariant
            l@ == lit@,
            n == lit@.len(),
            i + n <= s@.len(),
            i + n <= usize::MAX,
            k <= n,
            s@.subrange(i as int, i + k) == lit@.subrange(0, k as int),
        decreases n - k,
    {
        if s[i + k] != l[k] {
            proof {
                assert(s@.subrange(i as int, i + lit@.len())[k as int] != lit@[k as int]);
                assert(s@.subrange(i as int, i + lit@.len()) != lit@);
            }
            return None;
        }
        k += 1;
        proof {
            assert(s@.subrange(i as int, i + k) =~= lit@.subrange(0, k as int));
        }
    }
    proof {
        assert(s@.subrange(i as int, i + n) =~= lit@);
    }
    Some(i + n)
}

/// Reads the maximal digit run at position `i`.
pub fn p_digits(s: &Vec<char>, i: usize) -> (r: (Vec<char>, usize))
    requires
        i <= s@.len(),
    ensures
        r.0@ == sp_digits(s@, i as int).0,
        r.1 as int == sp_digits(s@, i as int).1,
        i <= r.1 <= s@.len(),
    decreases s@.len() - i,
{
    if i < s.len() && is_digit_exec(s[i]) {
        let (mut ds, j) = p_digits(s, i + 1);
        ds.insert(0, s[i]);
        proof {
            assert(ds@ =~= seq![s@[i as int]] + sp_digits(s@, i as int + 1).0);
        }
        (ds, j)
    } else {
        (Vec::new(), i)
    }
}

/// The value of a digit string of at most 19 digits.
fn digits_val_exec(ds: &Vec<char>) -> (r: u64)
    requires
        all_digits(ds@),
        ds@.len() <= 19,
    ensures
        r as int == val_of(ds@),
{
    proof {
        reveal_with_fuel(pow10, 20);
    }
    let n = ds.len();
    let mut acc: u64 = 0;
    let mut k: usize = 0;
    while k < n
        invariant
            all_digits(ds@),
            n == ds@.len() <= 19,
            k <= n,
            acc as int == val_of(ds@.subrange(0, k as int)),
            (acc as int) < pow10(k as nat),
            pow10(19) == 10000000000000000000,
        decreases n - k,
    {
        proof {
            reveal_with_fuel(pow10, 20);
            let pre = ds@.subrange(0, k as int);
            assert(pre.push(ds@[k as int]) =~= ds@.subrange(0, k as int + 1));
            assert(pre.push(ds@[k as int]).drop_last() =~= pre);
            assert(is_digit(ds@[k as int]));
        }
        let d = (ds[k] as u32 - 48) as u64;
        acc = acc * 10 + d;
        k += 1;
    }
    proof {
        assert(ds@.subrange(0, n as int) =~= ds@);
    }
    acc
}

/// Reads a canonical `i64` decimal at position `i`.
pub fn p_int(s: &Vec<char>, i: usize) -> (r: Option<(i64, usize)>)
    requires
        i <= s@.len(),
    ensures
        match r {
            Some(p) => sp_int(s@, i as int) == Some((p.0 as int, p.1 as int)) && i <= p.1 <= s@.len(),
            None => sp_int(s@, i as int) is None,
        },
{
    let neg = i < s.len() && s[i] == '-';
    let start = if neg { i + 1 } else { i };
    let (ds, j) = p_digits(s, start);
    proof {
        lemma_sp_digits_props(s@, start as int);
        lemma_val_of_bound(ds@);
        reveal_with_fuel(pow10, 20);
    }
    if ds.len() == 0 {
        return None;
    }
    if ds.len() > 1 && ds[0] == '0' {
        return None;
    }
    if ds.len() > 19 {
        return None;
    }
    let v = digits_val_exec(&ds);
    if neg {
        if v == 0 {
            return None;
        }
        if v > 9223372036854775808u64 {
            return None;
        }
        let x: i64 = if v == 9223372036854775808u64 {
            i64::MIN
        } else {
            -(v as i64)
        };
        Some((x, j))
    } else {
        if v > i64::MAX as u64 {
            return None;
        }
        Some((v as i64, j))
    }
}

/// Decodes the named escape for `e`.
fn esc_code_exec(e: char) -> (r: Option<char>)
    ensures
        r == esc_code(e),
{
    if e == '"' { Some('"') }
    else if e == '\\' { Some('\\') }
    else if e == 'b' { Some('\u{8}') }
    else if e == 'f' { Some('\u{c}') }
    else if e == 'n' { Some('\n') }
    else if e == 'r' { Some('\r') }
    else if e == 't' { Some('\t') }
    else { None }
}

fn hex_val_exec(c: char) -> (r: Option<u8>)
    ensures
        match r {
            Some(v) => is_hex_lc(c) && v as int == hex_val(c) && v < 16,
            None => !is_hex_lc(c),
        },
{
    let v = c as u32;
    if 48 <= v && v <= 57 {
        Some((v - 48) as u8)
    } else if 97 <= v && v <= 102 {
        Some((v - 87) as u8)
    } else {
        None
    }
}

/// Reads a JSON string body at position `i` (just after the opening quote),
/// through its closing quote.
pub fn p_string(s: &Vec<char>, i: usize) -> (r: Option<(Vec<char>, usize)>)
    requires
        i <= s@.len(),
    ensures
        match r {
            Some(p) => sp_string(s@, i as int) == Some((p.0@, p.1 as int)) && i <= p.1 <= s@.len(),
            None => sp_string(s@, i as int) is None,
        },
    decreases s@.len() - i,
{
    if i >= s.len() {
        return None;
    }
    let c = s[i];
    if c == '"' {
        return Some((Vec::new(), i + 1));
    }
    if c == '\\' {
        if i + 1 < s.len() && s[i + 1] == 'u' {
            if s.len() - i >= 6 && s[i + 2] == '0' && s[i + 3] == '0' {
                let h4 = hex_val_exec(s[i + 4]);
                let h5 = hex_val_exec(s[i + 5]);
                match (h4, h5) {
                    (Some(hi), Some(lo)) => {
                        let v: u8 = hi * 16 + lo;
                        if v < 32 {
                            let dc = v as char;
                            match p_string(s, i + 6) {
                                Some((mut t, k)) => {
                                    t.insert(0, dc);
                                    proof {
                                        assert(t@ =~= seq![dc] + (sp_string(s@, i as int + 6)->0).0);
                                    }
                                    Some((t, k))
                                },
                                None => None,
                            }
                        } else {
                            None
                        }
                    },
                    _ => None,
                }
            } else {
                None
            }
        } else if i + 1 < s.len() {
            match esc_code_exec(s[i + 1]) {
                Some(dc) => {
                    match p_string(s, i + 2) {
                        Some((mut t, k)) => {
                            t.insert(0, dc);
                            proof {
                                assert(t@ =~= seq![dc] + (sp_string(s@, i as int + 2)->0).0);
                            }
                            Some((t, k))
                        },
                        None => None,
                    }
                },
                None => None,
            }
        } else {
            None
        }
    } else if (c as u32) >= 32 {
        match p_string(s, i + 1) {
            Some((mut t, k)) => {
                t.insert(0, c);
                proof {
                    assert(t@ =~= seq![c] + (sp_string(s@, i as int + 1)->0).0);
                }
                Some((t, k))
            },
            None => None,
        }
    } else {
        None
    }
}

} // verus!
