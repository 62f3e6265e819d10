use vstd::prelude::*;

use crate::account::AccountHash;
use crate::swap::Swap;

verus! {

/// Whether the caller is the swap's recipient.
pub fn caller_is_recipient(swap: &Swap, caller: &AccountHash) -> (r: bool)
    ensures
        r == (caller@ == swap.recipient@),
{
    caller.same_as(&swap.recipient)
}

/// Whether the caller is the swap's owner.
pub fn caller_is_owner(swap: &Swap, caller: &AccountHash) -> (r: bool)
    ensures
        r == (caller@ == swap.owner@),
{
    caller.same_as(&swap.owner)
}

} // verus!
