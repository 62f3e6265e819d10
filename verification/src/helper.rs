use vstd::prelude::*;

use crate::account::{ContractHash, Key, KeyModel};
use crate::amount::Amount;
use crate::swap::Swap;

verus! {

/// A call of the token contract's `transfer` entry point.
#[derive(Clone, Copy, Debug)]
pub struct Transfer {
    pub token: ContractHash,
    pub to: Key,
    pub amount: Amount,
}

/// A transfer, by the values of its fields.
pub struct TransferModel {
    pub token: Seq<u8>,
    pub to: KeyModel,
    pub amount: nat,
}

impl View for Transfer {
    type V = TransferModel;

    open spec fn view(&self) -> TransferModel {
        TransferModel { token: self.token@, to: self.to@, amount: self.amount@ }
    }
}

/// The transfer of `amount` of the swap's token to `to`.
pub fn transfer_to(swap: &Swap, to: Key, amount: Amount) -> (r: Transfer)
    ensures
        r@ == (TransferModel { token: swap.token@, to: to@, amount: amount@ }),
{
    Transfer { token: swap.token, to, amount }
}

/// Whether the deadline `end` has passed at block time `now`.
pub fn is_time_out(now: u64, end: u64) -> (r: bool)
    ensures
        r == (now > end),
{
    now > end
}

} // verus!
