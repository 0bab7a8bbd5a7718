//! Decimal text of a soft constraint's weight.
//!
//! The engine takes weights as text. The text of a weight is its decimal form:
//! an optional minus sign, then the digits without leading zeros.

use vstd::prelude::*;

verus! {

/// The ASCII code of the minus sign.
pub const MINUS: u8 = 45;

/// The ASCII code of the digit zero.
pub const ZERO: u8 = 48;

/// The decimal digits of `n` as ASCII codes, most significant first.
pub open spec fn digits(n: nat) -> Seq<u8>
    decreases n,
{
    if n < 10 {
        seq![(48 + n) as u8]
    } else {
        digits(n / 10).push((48 + n % 10) as u8)
    }
}

/// The decimal text of `w`: a minus sign for a negative number, then the
/// digits of its magnitude.
pub open spec fn decimal(w: int) -> Seq<u8> {
    if w < 0 {
        seq![45u8] + digits((-w) as nat)
    } else {
        digits(w as nat)
    }
}

/// The number that a sequence of ASCII digits denotes.
pub open spec fn digits_value(s: Seq<u8>) -> nat
    decreases s.len(),
{
    if s.len() == 0 {
        0
    } else {
        (digits_value(s.drop_last()) * 10 + (s.last() - 48)) as nat
    }
}

/// The number that a decimal text denotes.
pub open spec fn decimal_value(s: Seq<u8>) -> int {
    if s.len() > 0 && s[0] == 45u8 {
        -(digits_value(s.subrange(1, s.len() as int)) as int)
    } else {
        digits_value(s) as int
    }
}

/// Every element of `digits(n)` is an ASCII digit, and the digits denote `n`.
pub proof fn lemma_digits(n: nat)
    ensures
        digits(n).len() >= 1,
        forall|i: int| 0 <= i < digits(n).len() ==> 48 <= #[trigger] digits(n)[i] <= 57,
        digits_value(digits(n)) == n,
    decreases n,
{
    if n < 10 {
        let s = digits(n);
        assert(s.drop_last() =~= Seq::<u8>::empty());
        assert(digits_value(s.drop_last()) == 0);
    } else {
        lemma_digits(n / 10);
        let s = digits(n);
        assert(s.drop_last() =~= digits(n / 10));
    }
}

/// Reading the decimal text of a number gives the number back, so distinct
/// weights never share a text.
pub proof fn lemma_decimal_round_trip(w: int)
    ensures
        decimal_value(decimal(w)) == w,
{
    if w < 0 {
        let d = digits((-w) as nat);
        lemma_digits((-w) as nat);
        assert(decimal(w).subrange(1, decimal(w).len() as int) =~= d);
    } else {
        lemma_digits(w as nat);
    }
}

/// Distinct weights have distinct texts.
pub proof fn lemma_decimal_injective(a: int, b: int)
    requires
        decimal(a) == decimal(b),
    ensures
        a == b,
{
    lemma_decimal_round_trip(a);
    lemma_decimal_round_trip(b);
}

/// The magnitude of `w`, which always fits in a `u64`.
pub fn magnitude(w: i64) -> (m: u64)
    ensures
        m as int == if w < 0 { -(w as int) } else { w as int },
{
    if w < 0 {
        let below: i64 = -(w + 1);
        (below as u64) + 1
    } else {
        w as u64
    }
}

/// Appends the decimal digits of `n` to `out`.
pub fn push_digits(n: u64, out: &mut Vec<u8>)
    ensures
        final(out)@ == old(out)@ + digits(n as nat),
    decreases n,
{
    if n >= 10 {
        push_digits(n / 10, out);
    }
    let digit: u8 = (n % 10) as u8;
    out.push(ZERO + digit);
    assert(final(out)@ =~= old(out)@ + digits(n as nat));
}

/// The text under which `weight` crosses to the engine.
///
/// The text holds a minus sign and digits only, so it has no zero byte and
/// can be handed over as a terminated string.
pub fn weight_text(weight: i64) -> (text: Vec<u8>)
    ensures
        text@ == decimal(weight as int),
        decimal_value(text@) == weight,
        text@.len() >= 1,
        forall|i: int| 0 <= i < text@.len() ==> #[trigger] text@[i] != 0,
{
    let mut text: Vec<u8> = Vec::new();
    if weight < 0 {
        text.push(MINUS);
    }
    let m: u64 = magnitude(weight);
    push_digits(m, &mut text);
    proof {
        lemma_digits(m as nat);
        lemma_decimal_round_trip(weight as int);
        assert(text@ =~= decimal(weight as int));
    }
    text
}

} // verus!
