//! The deposit split: how much of an incoming amount is withheld as fee and
//! how the remainder is divided between the two recipients.

use vstd::prelude::*;

use vstd::arithmetic::div_mod::{
    lemma_div_denominator, lemma_div_multiples_vanish, lemma_div_nonincreasing,
    lemma_div_pos_is_pos, lemma_fundamental_div_mod, lemma_mod_division_less_than_divisor,
};

verus! {

/// The fee withheld from a deposit of `amount`: fifty parts in a thousand,
/// as a truncating multiply-then-divide (multiply first, divide second, so
/// the rate itself is never rounded to zero).
pub open spec fn fee_of(amount: u128) -> int {
    (amount * 50) / 1000
}

/// What remains of a deposit once the fee is withheld.
pub open spec fn send_of(amount: u128) -> int {
    amount - fee_of(amount)
}

/// The first recipient's share: half of the remainder, rounded down.
pub open spec fn share1_of(amount: u128) -> int {
    send_of(amount) / 2
}

/// The second recipient's share: the rest of the remainder, so it absorbs
/// the odd unit and is never smaller than the first share.
pub open spec fn share2_of(amount: u128) -> int {
    send_of(amount) - share1_of(amount)
}

/// Multiplying by 50 and dividing by 1000 truncates exactly like dividing
/// by 20, which is how the executable code computes the fee without needing
/// headroom above `amount * 50`.
proof fn lemma_fee_is_twentieth(amount: u128)
    ensures
        fee_of(amount) == amount as int / 20,
{
    let a = amount as int;
    lemma_div_denominator(a * 50, 50, 20);
    lemma_div_multiples_vanish(a, 50);
}

/// Law: splitting conserves value. For every amount, the fee and the two
/// shares sum back to the amount exactly, the shares sum to the remainder
/// after the fee, and the second share is at least the first.
pub proof fn lemma_split_conservation(amount: u128)
    ensures
        0 <= fee_of(amount) <= amount,
        0 <= share1_of(amount) <= share2_of(amount),
        share1_of(amount) + share2_of(amount) == amount - fee_of(amount),
        fee_of(amount) + share1_of(amount) + share2_of(amount) == amount,
{
    let a = amount as int;
    lemma_fee_is_twentieth(amount);
    lemma_div_pos_is_pos(a, 20);
    lemma_div_nonincreasing(a, 20);
    let s = send_of(amount);
    lemma_div_pos_is_pos(s, 2);
    lemma_fundamental_div_mod(s, 2);
    lemma_mod_division_less_than_divisor(s, 2);
}

/// The fee withheld from a deposit of `amount`.
pub fn compute_fee(amount: u128) -> (fee: u128)
    ensures
        fee == fee_of(amount),
{
    proof {
        lemma_fee_is_twentieth(amount);
    }
    amount / 20
}

} // verus!
