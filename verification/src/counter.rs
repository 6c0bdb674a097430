//! A counter that never overflows, for numbering tool calls.

use crate::text::{decimal, digit_char};
use vstd::prelude::*;

verus! {

/// The number that decimal digits stand for, the least significant first.
pub open spec fn value_of(digits: Seq<u8>) -> nat
    decreases digits.len(),
{
    if digits.len() == 0 {
        0
    } else {
        digits[0] as nat + 10 * value_of(digits.skip(1))
    }
}

/// Decimal digits without leading zeros, the least significant first.
pub open spec fn are_digits(digits: Seq<u8>) -> bool {
    &&& forall|i: int| 0 <= i < digits.len() ==> #[trigger] digits[i] < 10
    &&& digits.len() > 0 ==> digits.last() != 0
}

/// A natural number that can be counted up without limit.
#[derive(Debug)]
pub struct Counter {
    digits: Vec<u8>,
}

impl View for Counter {
    type V = nat;

    closed spec fn view(&self) -> nat {
        value_of(self.digits@)
    }
}

/// A number other than zero has its digits for a numeral.
proof fn lemma_numeral(digits: Seq<u8>)
    requires
        are_digits(digits),
        digits.len() > 0,
    ensures
        value_of(digits) > 0,
        decimal(value_of(digits)) == if digits.len() == 1 {
            seq![digit_char(digits[0] as int)]
        } else {
            decimal(value_of(digits.skip(1))).push(digit_char(digits[0] as int))
        },
    decreases digits.len(),
{
    let rest = digits.skip(1);
    if digits.len() == 1 {
        assert(value_of(rest) == 0);
    } else {
        assert(rest.last() == digits.last());
        lemma_numeral(rest);
        let n = value_of(digits);
        assert(n >= 10);
        assert(n / 10 == value_of(rest));
        assert(n % 10 == digits[0]);
    }
}

impl Counter {
    /// The digits are well formed.
    #[verifier::type_invariant]
    spec fn well_formed(self) -> bool {
        are_digits(self.digits@)
    }

    /// Zero.
    pub fn new() -> (counter: Counter)
        ensures
            counter@ == 0,
    {
        Counter { digits: Vec::new() }
    }

    /// One more.
    pub fn increment(&mut self)
        ensures
            final(self)@ == old(self)@ + 1,
    {
        proof {
            use_type_invariant(&*self);
        }
        let mut digits: Vec<u8> = Vec::new();
        std::mem::swap(&mut digits, &mut self.digits);
        assert(digits@.skip(0) =~= digits@);
        carry(&mut digits, 0);
        assert(digits@.skip(0) =~= digits@);
        self.digits = digits;
    }

    /// Whether this is zero.
    pub fn is_zero(&self) -> (zero: bool)
        ensures
            zero == (self@ == 0),
    {
        proof {
            use_type_invariant(self);
            if self.digits@.len() > 0 {
                lemma_numeral(self.digits@);
            }
        }
        self.digits.len() == 0
    }

    /// The decimal numeral.
    pub fn numeral(&self) -> (text: String)
        ensures
            text@ == decimal(self@),
    {
        proof {
            use_type_invariant(self);
        }
        if self.digits.len() == 0 {
            let mut text: String = String::new();
            text.push('0');
            assert(text@ =~= decimal(0));
            text
        } else {
            assert(self.digits@.skip(0) =~= self.digits@);
            spell(&self.digits, 0)
        }
    }
}

/// Adds one to the digits from position `i` on.
fn carry(digits: &mut Vec<u8>, i: usize)
    requires
        i <= old(digits)@.len(),
        are_digits(old(digits)@),
    ensures
        are_digits(final(digits)@),
        final(digits)@.len() >= old(digits)@.len(),
        final(digits)@.len() > i,
        final(digits)@.take(i as int) == old(digits)@.take(i as int),
        value_of(final(digits)@.skip(i as int)) == value_of(old(digits)@.skip(i as int)) + 1,
    decreases old(digits)@.len() - i,
{
    let ghost before = digits@;
    if i == digits.len() {
        digits.push(1);
        assert(before.skip(i as int) =~= Seq::<u8>::empty());
        assert(digits@.skip(i as int) =~= seq![1u8]);
        assert(seq![1u8].skip(1) =~= Seq::<u8>::empty());
        assert(value_of(seq![1u8]) == 1 + 10 * value_of(seq![1u8].skip(1)));
        assert(digits@.take(i as int) =~= before.take(i as int));
    } else {
        let d: u8 = digits[i];
        assert(before.skip(i as int).skip(1) =~= before.skip(i + 1));
        if d < 9 {
            digits.set(i, d + 1);
            assert(digits@.skip(i as int).skip(1) =~= before.skip(i + 1));
            assert(digits@.take(i as int) =~= before.take(i as int));
        } else {
            carry(digits, i + 1);
            let ghost carried = digits@;
            assert(carried.take(i + 1)[i as int] == before[i as int]);
            digits.set(i, 0);
            assert(digits@.skip(i as int).skip(1) =~= carried.skip(i + 1));
            assert(digits@.take(i as int) =~= before.take(i as int)) by {
                assert(carried.take(i as int) =~= carried.take(i + 1).take(i as int));
                assert(before.take(i as int) =~= before.take(i + 1).take(i as int));
            }
        }
    }
}

/// The numeral of the digits from position `i` on.
fn spell(digits: &Vec<u8>, i: usize) -> (text: String)
    requires
        are_digits(digits@),
        i < digits@.len(),
    ensures
        text@ == decimal(value_of(digits@.skip(i as int))),
    decreases digits@.len() - i,
{
    let ghost tail = digits@.skip(i as int);
    proof {
        assert(tail.last() == digits@.last());
        assert(are_digits(tail));
        lemma_numeral(tail);
        assert(tail.skip(1) =~= digits@.skip(i + 1));
    }
    if i == digits.len() - 1 {
        let mut text: String = String::new();
        text.push((48 + digits[i]) as char);
        assert(text@ =~= seq![digit_char(tail[0] as int)]);
        text
    } else {
        let mut text = spell(digits, i + 1);
        text.push((48 + digits[i]) as char);
        text
    }
}

} // verus!
