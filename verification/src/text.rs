//! Numerals and small string helpers.

use vstd::prelude::*;
use vstd::string::*;

verus! {

/// The digits of the bases up to sixteen, lower case.
pub open spec fn digits() -> Seq<char> {
    seq!['0', '1', '2', '3', '4', '5', '6', '7', '8', '9', 'a', 'b', 'c', 'd', 'e', 'f']
}

/// The numeral of `n` in `base`, most significant digit first, without
/// leading zeros; zero is written as a single `0`.
pub open spec fn numeral(n: nat, base: nat) -> Seq<char>
    recommends
        2 <= base <= 16,
    decreases n,
    via numeral_decreases
{
    if n < base || base < 2 {
        seq![digits()[n as int]]
    } else {
        numeral(n / base, base).push(digits()[(n % base) as int])
    }
}

#[via_fn]
proof fn numeral_decreases(n: nat, base: nat) {
    if !(n < base || base < 2) {
        lemma_quotient_is_smaller(n, base);
    }
}

/// Dividing a number by a base of at least two makes it smaller, unless it
/// is below the base already.
proof fn lemma_quotient_is_smaller(n: nat, base: nat)
    requires
        2 <= base <= n,
    ensures
        n / base < n,
{
    assert(n / base < n) by (nonlinear_arith)
        requires
            2 <= base <= n,
    ;
}

/// The decimal numeral of `n`.
pub open spec fn decimal_text(n: u64) -> Seq<char> {
    numeral(n as nat, 10)
}

/// The hexadecimal numeral of `n` behind the prefix `0x`.
pub open spec fn hex_text(n: u64) -> Seq<char> {
    seq!['0', 'x'] + numeral(n as nat, 16)
}

fn digit_str(d: u64) -> (s: &'static str)
    requires
        d < 16,
    ensures
        s@ == seq![digits()[d as int]],
{
    proof {
        reveal_strlit("0");
        reveal_strlit("1");
        reveal_strlit("2");
        reveal_strlit("3");
        reveal_strlit("4");
        reveal_strlit("5");
        reveal_strlit("6");
        reveal_strlit("7");
        reveal_strlit("8");
        reveal_strlit("9");
        reveal_strlit("a");
        reveal_strlit("b");
        reveal_strlit("c");
        reveal_strlit("d");
        reveal_strlit("e");
        reveal_strlit("f");
    }
    let s = match d {
        0 => "0",
        1 => "1",
        2 => "2",
        3 => "3",
        4 => "4",
        5 => "5",
        6 => "6",
        7 => "7",
        8 => "8",
        9 => "9",
        10 => "a",
        11 => "b",
        12 => "c",
        13 => "d",
        14 => "e",
        _ => "f",
    };
    assert(s@ =~= seq![digits()[d as int]]);
    s
}

fn push_numeral(out: &mut String, n: u64, base: u64)
    requires
        2 <= base <= 16,
    ensures
        final(out)@ == old(out)@ + numeral(n as nat, base as nat),
    decreases n,
{
    if n >= base {
        proof {
            lemma_quotient_is_smaller(n as nat, base as nat);
        }
        push_numeral(out, n / base, base);
        out.append(digit_str(n % base));
        assert(final(out)@ =~= old(out)@ + numeral(n as nat, base as nat));
    } else {
        out.append(digit_str(n));
    }
}

/// Writes `n` in decimal.
pub fn decimal(n: u64) -> (text: String)
    ensures
        text@ == decimal_text(n),
{
    let mut text = String::new();
    push_numeral(&mut text, n, 10);
    assert(text@ =~= decimal_text(n));
    text
}

/// Writes `n` in lower-case hexadecimal behind `0x`.
pub fn hex(n: u64) -> (text: String)
    ensures
        text@ == hex_text(n),
{
    proof {
        reveal_strlit("0x");
    }
    let mut text = String::from_str("0x");
    push_numeral(&mut text, n, 16);
    assert(text@ =~= hex_text(n));
    text
}

/// Whether `text` begins with `prefix`.
pub fn has_prefix(text: &str, prefix: &str) -> (found: bool)
    ensures
        found == prefix@.is_prefix_of(text@),
{
    let wanted: usize = prefix.unicode_len();
    if text.unicode_len() < wanted {
        return false;
    }
    let mut i: usize = 0;
    while i < wanted
        invariant
            i <= wanted,
            wanted == prefix@.len(),
            wanted <= text@.len(),
            forall|j: int| 0 <= j < i ==> text@[j] == prefix@[j],
        decreases wanted - i,
    {
        if text.get_char(i) != prefix.get_char(i) {
            return false;
        }
        i = i + 1;
    }
    assert(prefix@ =~= text@.subrange(0, prefix@.len() as int));
    true
}

} // verus!
