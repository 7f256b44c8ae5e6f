//! Model of the ledger substrate's two transfer primitives. The real
//! substrate executes these as black-box calls that either complete or make
//! the whole transition abort; modelling them over plain balances lets every
//! transition's custody effect be verified exactly.

use vstd::prelude::*;

verus! {

/// The value-transfer primitive: moves `amount` from one balance to another.
/// It refuses, and moves nothing, when the source balance does not suffice
/// or the destination could not hold the sum.
pub fn transfer_value(from: &mut u64, to: &mut u64, amount: u64) -> (ok: bool)
    ensures
        ok == (*old(from) >= amount && *old(to) + amount <= u64::MAX),
        ok ==> *final(from) == *old(from) - amount && *final(to) == *old(to) + amount,
        !ok ==> *final(from) == *old(from) && *final(to) == *old(to),
{
    if *from >= amount && amount <= u64::MAX - *to {
        *from = *from - amount;
        *to = *to + amount;
        true
    } else {
        false
    }
}

/// The asset-transfer primitive: moves the one non-fungible unit tracked by
/// `holder` to `to`. It refuses, and moves nothing, unless `from` is the
/// current custodian.
pub fn transfer_asset(holder: &mut u64, from: u64, to: u64) -> (ok: bool)
    ensures
        ok == (*old(holder) == from),
        ok ==> *final(holder) == to,
        !ok ==> *final(holder) == *old(holder),
{
    if *holder == from {
        *holder = to;
        true
    } else {
        false
    }
}

} // verus!
