//! Numbers written out in digits, as names and messages need them.

use vstd::arithmetic::div_mod::lemma_div_decreases;
use vstd::arithmetic::div_mod::lemma_mod_bound;
use vstd::prelude::*;

verus! {

/// `String::push` appends one character to the end of the string.
pub assume_specification[ String::push ](s: &mut String, ch: char)
    ensures
        final(s)@ == old(s)@.push(ch),
;

/// The digit for a value below sixteen: `0` to `9`, then `a` to `f`.
pub open spec fn digit_of(value: nat) -> char {
    if value == 0 {
        '0'
    } else if value == 1 {
        '1'
    } else if value == 2 {
        '2'
    } else if value == 3 {
        '3'
    } else if value == 4 {
        '4'
    } else if value == 5 {
        '5'
    } else if value == 6 {
        '6'
    } else if value == 7 {
        '7'
    } else if value == 8 {
        '8'
    } else if value == 9 {
        '9'
    } else if value == 10 {
        'a'
    } else if value == 11 {
        'b'
    } else if value == 12 {
        'c'
    } else if value == 13 {
        'd'
    } else if value == 14 {
        'e'
    } else {
        'f'
    }
}

/// A number in the given base, most significant digit first, without leading
/// zeros; zero is the single digit `0`.
pub open spec fn numeral(n: nat, base: nat) -> Seq<char>
    recommends
        2 <= base <= 16,
    decreases n,
    via numeral_shrinks
{
    if n < base || base < 2 {
        seq![digit_of(n)]
    } else {
        numeral(n / base, base).push(digit_of(n % base))
    }
}

#[via_fn]
proof fn numeral_shrinks(n: nat, base: nat) {
    if n >= base && base >= 2 {
        lemma_div_decreases(n as int, base as int);
    }
}

/// A number in lower-case hexadecimal.
pub open spec fn hex(n: nat) -> Seq<char> {
    numeral(n, 16)
}

/// A whole number in decimal, with a minus sign in front if it is negative.
pub open spec fn decimal(n: int) -> Seq<char> {
    if n < 0 {
        seq!['-'] + numeral((-n) as nat, 10)
    } else {
        numeral(n as nat, 10)
    }
}

/// The digit for a value below sixteen.
fn digit(value: u64) -> (c: char)
    requires
        value < 16,
    ensures
        c == digit_of(value as nat),
{
    if value == 0 {
        '0'
    } else if value == 1 {
        '1'
    } else if value == 2 {
        '2'
    } else if value == 3 {
        '3'
    } else if value == 4 {
        '4'
    } else if value == 5 {
        '5'
    } else if value == 6 {
        '6'
    } else if value == 7 {
        '7'
    } else if value == 8 {
        '8'
    } else if value == 9 {
        '9'
    } else if value == 10 {
        'a'
    } else if value == 11 {
        'b'
    } else if value == 12 {
        'c'
    } else if value == 13 {
        'd'
    } else if value == 14 {
        'e'
    } else {
        'f'
    }
}

/// The last `taken` items of a sequence, from its end towards its start.
spec fn backwards(s: Seq<char>, taken: nat) -> Seq<char> {
    Seq::new(taken, |i: int| s[s.len() - 1 - i])
}

/// Appends `n`, written in `base`, to `out`.
pub fn push_numeral(out: &mut String, n: u64, base: u64)
    requires
        2 <= base <= 16,
    ensures
        final(out)@ == old(out)@ + numeral(n as nat, base as nat),
{
    let mut low: Vec<char> = Vec::new();
    let mut rest: u64 = n;
    while rest >= base
        invariant
            2 <= base <= 16,
            numeral(n as nat, base as nat) =~= numeral(rest as nat, base as nat) + backwards(
                low@,
                low@.len(),
            ),
        decreases rest,
    {
        let ghost before = low@;
        proof {
            lemma_mod_bound(rest as int, base as int);
            lemma_div_decreases(rest as int, base as int);
        }
        low.push(digit(rest % base));
        rest = rest / base;
        assert(backwards(low@, low@.len()) =~= seq![low@[low@.len() - 1]] + backwards(
            before,
            before.len(),
        ));
    }
    let ghost start = out@;
    out.push(digit(rest));
    let mut k: usize = low.len();
    while k > 0
        invariant
            k <= low@.len(),
            out@ =~= start + numeral(rest as nat, base as nat) + backwards(
                low@,
                (low@.len() - k) as nat,
            ),
        decreases k,
    {
        k = k - 1;
        out.push(low[k]);
    }
}

/// Appends `n` in decimal to `out`.
pub fn push_decimal(out: &mut String, n: i32)
    ensures
        final(out)@ == old(out)@ + decimal(n as int),
{
    if n < 0 {
        out.push('-');
        let size: u64 = (-(n as i64)) as u64;
        push_numeral(out, size, 10);
    } else {
        push_numeral(out, n as u64, 10);
    }
}

} // verus!
