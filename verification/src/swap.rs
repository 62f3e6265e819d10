use vstd::prelude::*;

use crate::account::{AccountHash, ContractHash, Key, KeyModel};
use crate::amount::Amount;
use crate::error::Error;
use crate::hash::{hash_secret, hex_lower, keccak256_digest, secret_hash};
use vstd::utf8::encode_utf8;
use crate::helper::{is_time_out, transfer_to, Transfer, TransferModel};
use crate::validator::{caller_is_owner, caller_is_recipient};

verus! {

/// The stored state of one swap: what its named keys hold.
pub struct Swap {
    /// The preimage of `hash`, empty until the recipient withdraws.
    pub secret: String,
    /// The lower-case hexadecimal Keccak-256 digest that locks the tokens.
    pub hash: String,
    /// The account that created the swap and may take the tokens back.
    pub owner: AccountHash,
    /// The account that may withdraw the tokens against the secret.
    pub recipient: AccountHash,
    /// The block time at which the swap was created.
    pub start: u64,
    /// The last block time at which the recipient may withdraw.
    pub end: u64,
    /// The amount of tokens still locked.
    pub amount: Amount,
    /// The token contract.
    pub token: ContractHash,
}

/// A swap, by the values of its fields.
pub struct SwapModel {
    pub secret: Seq<char>,
    pub hash: Seq<char>,
    pub owner: Seq<u8>,
    pub recipient: Seq<u8>,
    pub start: u64,
    pub end: u64,
    pub amount: nat,
    pub token: Seq<u8>,
}

impl View for Swap {
    type V = SwapModel;

    open spec fn view(&self) -> SwapModel {
        SwapModel {
            secret: self.secret@,
            hash: self.hash@,
            owner: self.owner@,
            recipient: self.recipient@,
            start: self.start,
            end: self.end,
            amount: self.amount@,
            token: self.token@,
        }
    }
}

/// The swap that `install` creates.
pub open spec fn installed(
    caller: Seq<u8>,
    now: u64,
    duration: u64,
    recipient: Seq<u8>,
    hash: Seq<char>,
    amount: nat,
    token: Seq<u8>,
) -> SwapModel {
    SwapModel {
        secret: Seq::empty(),
        hash,
        owner: caller,
        recipient,
        start: now,
        end: (now + duration) as u64,
        amount,
        token,
    }
}

/// What funding a new swap does: refused when the owner holds less than the
/// amount, else the whole amount moves to the swap's contract package.
pub open spec fn funding(s: SwapModel, balance: nat, package: Seq<u8>) -> Result<
    TransferModel,
    Error,
> {
    if balance < s.amount {
        Err(Error::NotEnoughBalance)
    } else {
        Ok(TransferModel { token: s.token, to: KeyModel::Hash(package), amount: s.amount })
    }
}

/// Who may replace the hash: the owner only.
pub open spec fn hash_update_allowed(s: SwapModel, caller: Seq<u8>) -> Result<(), Error> {
    if caller != s.owner {
        Err(Error::InValidCaller)
    } else {
        Ok(())
    }
}

/// What replacing the hash does: only the owner may, and only the hash changes.
pub open spec fn hash_update(s: SwapModel, caller: Seq<u8>, hash: Seq<char>) -> Result<
    SwapModel,
    Error,
> {
    match hash_update_allowed(s, caller) {
        Err(e) => Err(e),
        Ok(()) => Ok(SwapModel { hash, ..s }),
    }
}

/// Who may withdraw, and when, before the secret is looked at: the
/// recipient, up to the deadline. The checks come in this order.
pub open spec fn withdrawal_allowed(s: SwapModel, caller: Seq<u8>, now: u64) -> Result<(), Error> {
    if caller != s.recipient {
        Err(Error::InValidCaller)
    } else if now > s.end {
        Err(Error::TimeOut)
    } else {
        Ok(())
    }
}

/// What a withdrawal does: the recipient, up to the deadline, with a secret
/// that hashes to the stored hash, reveals the secret and receives all the
/// locked tokens. The secret is checked last.
pub open spec fn withdrawal(s: SwapModel, caller: Seq<u8>, now: u64, secret: Seq<char>) -> Result<
    (SwapModel, TransferModel),
    Error,
> {
    match withdrawal_allowed(s, caller, now) {
        Err(e) => Err(e),
        Ok(()) => if secret_hash(secret) != s.hash {
            Err(Error::InValidSecret)
        } else {
            Ok(
                (
                    SwapModel { secret, amount: 0, ..s },
                    TransferModel {
                        token: s.token,
                        to: KeyModel::Account(s.recipient),
                        amount: s.amount,
                    },
                ),
            )
        },
    }
}

/// What a refund does: the owner, after the deadline, receives all the locked
/// tokens back. The checks come in this order.
pub open spec fn refunding(s: SwapModel, caller: Seq<u8>, now: u64) -> Result<
    (SwapModel, TransferModel),
    Error,
> {
    if caller != s.owner {
        Err(Error::InValidCaller)
    } else if !(now > s.end) {
        Err(Error::TimeUnOut)
    } else {
        Ok(
            (
                SwapModel { amount: 0, ..s },
                TransferModel { token: s.token, to: KeyModel::Account(s.owner), amount: s.amount },
            ),
        )
    }
}

impl Swap {
    /// Creates the swap: the caller becomes the owner, the deadline lies
    /// `duration` after `now`, and no secret is known yet.
    pub fn install(
        caller: AccountHash,
        now: u64,
        duration: u64,
        recipient: AccountHash,
        hash: String,
        amount: Amount,
        token: ContractHash,
    ) -> (r: Swap)
        requires
            now + duration <= u64::MAX,
        ensures
            r@ == installed(caller@, now, duration, recipient@, hash@, amount@, token@),
            r.start == now,
            r.end == now + duration,
            r.owner@ == caller@,
            r.recipient@ == recipient@,
            r.hash@ == hash@,
            r.secret@.len() == 0,
            r.amount@ == amount@,
            r.token@ == token@,
    {
        Swap {
            secret: String::new(),
            hash,
            owner: caller,
            recipient,
            start: now,
            end: now + duration,
            amount,
            token,
        }
    }

    /// Decides the funding of a new swap from the owner's balance; on success,
    /// the transfer that moves the amount to the swap's contract package.
    pub fn finish_setup(&self, balance: &Amount, package: [u8; 32]) -> (r: Result<Transfer, Error>)
        ensures
            match funding(self@, balance@, package@) {
                Ok(t) => r matches Ok(tr) && tr@ == t,
                Err(e) => r == Err::<Transfer, Error>(e),
            },
            (r is Ok) <==> !(balance@ < self.amount@),
            r is Err ==> r == Err::<Transfer, Error>(Error::NotEnoughBalance),
            r matches Ok(t) ==> {
                &&& t.token@ == self.token@
                &&& t.to@ == KeyModel::Hash(package@)
                &&& t.amount@ == self.amount@
            },
    {
        if balance.is_less_than(&self.amount) {
            Err(Error::NotEnoughBalance)
        } else {
            Ok(transfer_to(self, Key::Hash(package), self.amount))
        }
    }

    /// Decides whether the caller may replace the hash, before the new hash
    /// is read.
    pub fn authorize_update_hash(&self, caller: &AccountHash) -> (r: Result<(), Error>)
        ensures
            r == hash_update_allowed(self@, caller@),
    {
        if !caller_is_owner(self, caller) {
            return Err(Error::InValidCaller);
        }
        Ok(())
    }

    /// Decides whether the caller may withdraw at block time `now`, before
    /// the secret is read.
    pub fn authorize_withdraw(&self, caller: &AccountHash, now: u64) -> (r: Result<(), Error>)
        ensures
            r == withdrawal_allowed(self@, caller@, now),
    {
        if !caller_is_recipient(self, caller) {
            return Err(Error::InValidCaller);
        }
        if is_time_out(now, self.end) {
            return Err(Error::TimeOut);
        }
        Ok(())
    }

    /// Replaces the hash, for the owner only.
    pub fn update_hash(&mut self, caller: &AccountHash, hash: String) -> (r: Result<(), Error>)
        ensures
            match hash_update(old(self)@, caller@, hash@) {
                Ok(s) => r is Ok && final(self)@ == s,
                Err(e) => r == Err::<(), Error>(e) && final(self)@ == old(self)@,
            },
            caller@ != old(self).owner@ ==> r == Err::<(), Error>(Error::InValidCaller),
            caller@ == old(self).owner@ ==> {
                &&& r is Ok
                &&& final(self).hash@ == hash@
                &&& final(self).secret@ == old(self).secret@
                &&& final(self).owner@ == old(self).owner@
                &&& final(self).recipient@ == old(self).recipient@
                &&& final(self).start == old(self).start
                &&& final(self).end == old(self).end
                &&& final(self).amount@ == old(self).amount@
                &&& final(self).token@ == old(self).token@
            },
    {
        if let Err(e) = self.authorize_update_hash(caller) {
            return Err(e);
        }
        self.hash = hash;
        Ok(())
    }

    /// Releases the locked tokens to the recipient against the secret.
    pub fn withdraw(&mut self, caller: &AccountHash, now: u64, secret: String) -> (r: Result<
        Transfer,
        Error,
    >)
        ensures
            match withdrawal(old(self)@, caller@, now, secret@) {
                Ok((s, t)) => final(self)@ == s && (r matches Ok(tr) && tr@ == t),
                Err(e) => r == Err::<Transfer, Error>(e) && final(self)@ == old(self)@,
            },
            caller@ != old(self).recipient@ ==> r == Err::<Transfer, Error>(Error::InValidCaller),
            caller@ == old(self).recipient@ && now > old(self).end ==> r == Err::<Transfer, Error>(
                Error::TimeOut,
            ),
            caller@ == old(self).recipient@ && now <= old(self).end && hex_lower(
                keccak256_digest(encode_utf8(secret@)),
            ) != old(self).hash@ ==> r == Err::<Transfer, Error>(Error::InValidSecret),
            (r is Ok) <==> (caller@ == old(self).recipient@ && now <= old(self).end
                && hex_lower(keccak256_digest(encode_utf8(secret@))) == old(self).hash@),
            r matches Ok(t) ==> {
                &&& t.token@ == old(self).token@
                &&& t.to@ == KeyModel::Account(old(self).recipient@)
                &&& t.amount@ == old(self).amount@
                &&& final(self).secret@ == secret@
                &&& final(self).amount@ == 0
            },
    {
        if let Err(e) = self.authorize_withdraw(caller, now) {
            return Err(e);
        }
        let hash = hash_secret(secret.as_str());
        if hash == self.hash {
            self.secret = secret;
            let transfer = transfer_to(self, Key::Account(self.recipient), self.amount);
            self.amount = Amount::zero();
            Ok(transfer)
        } else {
            Err(Error::InValidSecret)
        }
    }

    /// Returns the locked tokens to the owner once the deadline has passed.
    pub fn refund(&mut self, caller: &AccountHash, now: u64) -> (r: Result<Transfer, Error>)
        ensures
            match refunding(old(self)@, caller@, now) {
                Ok((s, t)) => final(self)@ == s && (r matches Ok(tr) && tr@ == t),
                Err(e) => r == Err::<Transfer, Error>(e) && final(self)@ == old(self)@,
            },
            (r is Ok) <==> (caller@ == old(self).owner@ && now > old(self).end),
            caller@ != old(self).owner@ ==> r == Err::<Transfer, Error>(Error::InValidCaller),
            caller@ == old(self).owner@ && now <= old(self).end ==> r == Err::<Transfer, Error>(
                Error::TimeUnOut,
            ),
            r matches Ok(t) ==> {
                &&& t.token@ == old(self).token@
                &&& t.to@ == KeyModel::Account(old(self).owner@)
                &&& t.amount@ == old(self).amount@
                &&& final(self).amount@ == 0
            },
    {
        if !caller_is_owner(self, caller) {
            return Err(Error::InValidCaller);
        }
        if !is_time_out(now, self.end) {
            return Err(Error::TimeUnOut);
        }
        let transfer = transfer_to(self, Key::Account(self.owner), self.amount);
        self.amount = Amount::zero();
        Ok(transfer)
    }
}

} // verus!
