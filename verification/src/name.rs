//! The name under which a path's semaphore is registered.
//!
//! Every participant derives the name from the path alone, so that unrelated
//! processes meet on one kernel object: a fixed prefix, then the path's hash
//! in lower-case hexadecimal without leading zeros.

use std::collections::hash_map::DefaultHasher;
use std::hash::Hash;
use std::hash::Hasher;
use crate::numeral::digit_of;
use crate::numeral::hex;
use crate::numeral::push_numeral;
use vstd::prelude::*;
use vstd::std_specs::hash::DefaultHasherAdditionalSpecFns;

verus! {

/// The writes that hashing a string performs on a hasher: what
/// `<str as Hash>::hash` feeds it, as a function of the text alone.
pub uninterp spec fn str_feed(text: Seq<char>) -> Seq<Seq<u8>>;

/// Calls `<str as Hash>::hash` on a `DefaultHasher`. The contract claims only
/// that the writes added to the hasher depend on the text and on nothing else.
#[verifier::external_body]
fn feed(state: &mut DefaultHasher, text: &str)
    ensures
        final(state)@ == old(state)@ + str_feed(text@),
{
    text.hash(state)
}

/// The hash that identifies a path.
pub open spec fn path_hash(path: Seq<char>) -> u64 {
    DefaultHasher::spec_finish(str_feed(path))
}

/// The prefix that every semaphore name starts with.
pub open spec fn name_prefix() -> Seq<char> {
    seq!['f', 'a', 's', 't', '-', 'l', 'o', 'c', 'k', '-', '0', '-']
}

/// The semaphore name for a path whose hash is `hash`.
pub open spec fn name_of_hash(hash: u64) -> Seq<char> {
    name_prefix() + hex(hash as nat)
}

/// The semaphore name for a path.
pub open spec fn name_of(path: Seq<char>) -> Seq<char> {
    name_of_hash(path_hash(path))
}

/// The longest a semaphore name can be: the prefix and sixteen digits.
pub const NAME_LIMIT: usize = 28;

/// Whether a character is one of the sixteen lower-case hexadecimal digits.
pub open spec fn is_hex_digit(c: char) -> bool {
    ('0' <= c && c <= '9') || ('a' <= c && c <= 'f')
}

/// Sixteen to the power `k`.
pub open spec fn sixteen_to(k: nat) -> nat
    decreases k,
{
    if k == 0 {
        1
    } else {
        16 * sixteen_to((k - 1) as nat)
    }
}

/// Whether a name can stand in the kernel's semaphore namespace: not longer
/// than the limit, and free of path separators and of the zero character that
/// would end it early.
pub open spec fn is_portable(name: Seq<char>) -> bool {
    &&& name.len() <= NAME_LIMIT
    &&& forall|i: int| 0 <= i < name.len() ==> #[trigger] name[i] != '/' && name[i] != '\0'
}

/// The hexadecimal form of a number holds at least one digit and nothing but
/// digits.
pub proof fn lemma_hex_digits(n: nat)
    ensures
        hex(n).len() >= 1,
        forall|i: int| 0 <= i < hex(n).len() ==> is_hex_digit(#[trigger] hex(n)[i]),
    decreases n,
{
    if n >= 16 {
        lemma_hex_digits(n / 16);
    }
}

/// A number below sixteen to the `k` takes at most `k` digits.
pub proof fn lemma_hex_length(n: nat, k: nat)
    requires
        k >= 1,
        n < sixteen_to(k),
    ensures
        hex(n).len() <= k,
    decreases n,
{
    if n >= 16 {
        if k == 1 {
            reveal_with_fuel(sixteen_to, 2);
        } else {
            lemma_hex_length(n / 16, (k - 1) as nat);
        }
    }
}

/// Two numbers with the same hexadecimal form are the same number.
pub proof fn lemma_hex_injective(a: nat, b: nat)
    requires
        hex(a) == hex(b),
    ensures
        a == b,
    decreases a,
{
    lemma_hex_digits(a / 16);
    lemma_hex_digits(b / 16);
    if a < 16 {
        assert(hex(a).len() == 1);
        assert(b < 16);
        assert(hex(a)[0] == digit_of(a));
        assert(hex(b)[0] == digit_of(b));
        assert(a == b);
    } else {
        assert(hex(a).len() >= 2);
        assert(b >= 16);
        assert(hex(a).drop_last() =~= hex(a / 16));
        assert(hex(b).drop_last() =~= hex(b / 16));
        lemma_hex_injective(a / 16, b / 16);
        assert(hex(a).last() == digit_of(a % 16));
        assert(hex(b).last() == digit_of(b % 16));
        assert(digit_of(a % 16) == digit_of(b % 16));
        assert(a % 16 == b % 16);
        assert(a == 16 * (a / 16) + a % 16);
        assert(b == 16 * (b / 16) + b % 16);
    }
}

/// Every semaphore name can stand in the kernel's namespace.
pub proof fn lemma_name_is_portable(hash: u64)
    ensures
        is_portable(name_of_hash(hash)),
{
    lemma_hex_digits(hash as nat);
    reveal_with_fuel(sixteen_to, 17);
    assert(sixteen_to(16) == 0x1_0000_0000_0000_0000);
    lemma_hex_length(hash as nat, 16);
    let name = name_of_hash(hash);
    assert forall|i: int| 0 <= i < name.len() implies #[trigger] name[i] != '/' && name[i]
        != '\0' by {
        if i >= 12 {
            assert(name[i] == hex(hash as nat)[i - 12]);
            assert(is_hex_digit(hex(hash as nat)[i - 12]));
        }
    }
}

/// Two paths get the same name only if they have the same hash: names add no
/// collisions of their own.
pub proof fn lemma_name_tells_hashes_apart(a: u64, b: u64)
    requires
        name_of_hash(a) == name_of_hash(b),
    ensures
        a == b,
{
    let x = name_of_hash(a);
    let y = name_of_hash(b);
    assert(hex(a as nat) =~= x.subrange(12, x.len() as int));
    assert(hex(b as nat) =~= y.subrange(12, y.len() as int));
    lemma_hex_injective(a as nat, b as nat);
}

/// The hash that identifies `path`: the standard hasher, fed the path as a
/// string.
pub fn hash_path(path: &str) -> (hash: u64)
    ensures
        hash == path_hash(path@),
{
    let mut hasher = DefaultHasher::new();
    feed(&mut hasher, path);
    hasher.finish()
}

/// The semaphore name for a path whose hash is `hash`.
pub fn name_for_hash(hash: u64) -> (name: String)
    ensures
        name@ == name_of_hash(hash),
        is_portable(name@),
{
    proof {
        lemma_name_is_portable(hash);
    }
    let mut name = String::new();
    name.push('f');
    name.push('a');
    name.push('s');
    name.push('t');
    name.push('-');
    name.push('l');
    name.push('o');
    name.push('c');
    name.push('k');
    name.push('-');
    name.push('0');
    name.push('-');
    assert(name@ =~= name_prefix());
    push_numeral(&mut name, hash, 16);
    name
}

/// The name of the semaphore that guards `path`.
pub fn semaphore_name(path: &str) -> (name: String)
    ensures
        name@ == name_of(path@),
        is_portable(name@),
{
    name_for_hash(hash_path(path))
}

} // verus!
