//! The derived amounts of one invocation: transfer, tax, burn and final,
//! and the laws that relate them.

use vstd::prelude::*;

verus! {

use crate::account::Account;

/// The spendable balance of an account: what exceeds the rent reserve
/// sized to its data buffer.
pub open spec fn spec_transfer_amount(a: Account) -> int {
    a.balance - a.data@.len()
}

/// Tax owed on `transfer`: nothing for an exempt source, otherwise
/// floor(transfer * num / den).
pub open spec fn spec_tax_amount(transfer: int, exempt: bool, num: int, den: int) -> int {
    if exempt {
        0
    } else {
        (transfer * num) / den
    }
}

/// The half of the tax that is credited to the burn sink (floor division);
/// the remainder leaves circulation entirely.
pub open spec fn spec_burn_amount(tax: int) -> int {
    tax / 2
}

/// What the destination is credited: the transfer net of tax.
pub open spec fn spec_final_amount(transfer: int, tax: int) -> int {
    transfer - tax
}

/// The tax on a nonnegative transfer at a rate of at most one is never
/// negative and never exceeds the transfer itself.
pub proof fn lemma_tax_bounds(transfer: int, exempt: bool, num: int, den: int)
    requires
        0 <= transfer,
        0 < den,
        0 <= num <= den,
    ensures
        0 <= spec_tax_amount(transfer, exempt, num, den) <= transfer,
{
    if !exempt {
        vstd::arithmetic::mul::lemma_mul_nonnegative(transfer, num);
        vstd::arithmetic::div_mod::lemma_div_pos_is_pos(transfer * num, den);
        vstd::arithmetic::mul::lemma_mul_inequality(num, den, transfer);
        vstd::arithmetic::div_mod::lemma_div_is_ordered(transfer * num, transfer * den, den);
        vstd::arithmetic::div_mod::lemma_div_multiples_vanish(transfer, den);
    }
}

/// An exempt source owes no tax: the destination is credited the whole
/// transfer and nothing reaches the burn sink.
pub proof fn lemma_exempt_amounts(transfer: int, num: int, den: int)
    ensures
        spec_tax_amount(transfer, true, num, den) == 0,
        spec_final_amount(transfer, spec_tax_amount(transfer, true, num, den)) == transfer,
        spec_burn_amount(spec_tax_amount(transfer, true, num, den)) == 0,
{
}

/// At the default one-per-hundred rate, a non-exempt transfer of T owes
/// floor(T / 100) in tax, of which floor(floor(T / 100) / 2) burns and
/// T - floor(T / 100) reaches the destination.
pub proof fn lemma_default_rate_amounts(transfer: int)
    ensures
        spec_tax_amount(transfer, false, 1, 100) == transfer / 100,
        spec_burn_amount(spec_tax_amount(transfer, false, 1, 100)) == (transfer / 100) / 2,
        spec_final_amount(transfer, spec_tax_amount(transfer, false, 1, 100)) == transfer - transfer / 100,
{
    assert(transfer * 1 == transfer);
}

/// A zero transfer yields zero tax, zero burn and a zero final amount.
pub proof fn lemma_zero_transfer(exempt: bool, num: int, den: int)
    requires
        0 < den,
        0 <= num,
    ensures
        spec_tax_amount(0, exempt, num, den) == 0,
        spec_burn_amount(spec_tax_amount(0, exempt, num, den)) == 0,
        spec_final_amount(0, spec_tax_amount(0, exempt, num, den)) == 0,
{
    assert(0 * num == 0);
    assert(0int / den == 0) by {
        vstd::arithmetic::div_mod::lemma_div_multiples_vanish(0, den);
    }
}

/// The routine is not idempotent: a successful call debits the source by
/// the tax while leaving its data buffer as it was, so a replay sees a
/// transfer amount smaller by exactly that tax — different whenever the
/// tax was nonzero.
pub proof fn lemma_replay_transfer_amount(before: Account, after: Account, tax: int)
    requires
        after.balance == before.balance - tax,
        after.data@.len() == before.data@.len(),
    ensures
        spec_transfer_amount(after) == spec_transfer_amount(before) - tax,
        tax != 0 ==> spec_transfer_amount(after) != spec_transfer_amount(before),
{
}

/// Computes the tax owed on `transfer`, exactly floor(transfer * num / den)
/// for a non-exempt source and zero for an exempt one.
pub fn compute_tax_amount(transfer: u64, exempt: bool, num: u64, den: u64) -> (tax: u64)
    requires
        0 < den,
        num <= den,
    ensures
        tax == spec_tax_amount(transfer as int, exempt, num as int, den as int),
        tax <= transfer,
{
    proof {
        lemma_tax_bounds(transfer as int, exempt, num as int, den as int);
        vstd::arithmetic::mul::lemma_mul_upper_bound(
            transfer as int,
            u64::MAX as int,
            num as int,
            u64::MAX as int,
        );
    }
    if exempt {
        0
    } else {
        let wide: u128 = ((transfer as u128) * (num as u128)) / (den as u128);
        wide as u64
    }
}

} // verus!
