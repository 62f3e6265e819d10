//! What holds of the swap across calls and over every sequence of calls.
use vstd::prelude::*;

use crate::account::KeyModel;
use crate::error::{error_code, Error};
use crate::hash::{hex_digit, hex_lower, keccak256_digest, secret_hash};
use crate::swap::{funding, hash_update, installed, refunding, withdrawal, SwapModel};
use vstd::utf8::encode_utf8;

verus! {

/// A call of one of the swap's entry points, with what the host tells of it.
pub enum Call {
    UpdateHash { caller: Seq<u8>, hash: Seq<char> },
    Withdraw { caller: Seq<u8>, now: u64, secret: Seq<char> },
    Refund { caller: Seq<u8>, now: u64 },
}

/// The swap after a call, and the tokens the call paid out. A refused call
/// reverts: it changes nothing and pays nothing.
pub open spec fn apply(s: SwapModel, c: Call) -> (SwapModel, nat) {
    match c {
        Call::UpdateHash { caller, hash } => match hash_update(s, caller, hash) {
            Ok(s2) => (s2, 0),
            Err(_) => (s, 0),
        },
        Call::Withdraw { caller, now, secret } => match withdrawal(s, caller, now, secret) {
            Ok((s2, t)) => (s2, t.amount),
            Err(_) => (s, 0),
        },
        Call::Refund { caller, now } => match refunding(s, caller, now) {
            Ok((s2, t)) => (s2, t.amount),
            Err(_) => (s, 0),
        },
    }
}

/// The swap after a sequence of calls, and the tokens paid out in all.
pub open spec fn run(s: SwapModel, calls: Seq<Call>) -> (SwapModel, nat)
    decreases calls.len(),
{
    if calls.len() == 0 {
        (s, 0)
    } else {
        let (s1, paid1) = run(s, calls.drop_last());
        let (s2, paid2) = apply(s1, calls.last());
        (s2, paid1 + paid2)
    }
}

/// How many calls of a sequence paid out a positive amount.
pub open spec fn payouts(s: SwapModel, calls: Seq<Call>) -> nat
    decreases calls.len(),
{
    if calls.len() == 0 {
        0
    } else {
        let s1 = run(s, calls.drop_last()).0;
        payouts(s, calls.drop_last()) + if apply(s1, calls.last()).1 > 0 {
            1nat
        } else {
            0nat
        }
    }
}

/// The parts of a swap that no call changes.
pub open spec fn same_terms(a: SwapModel, b: SwapModel) -> bool {
    &&& a.owner == b.owner
    &&& a.recipient == b.recipient
    &&& a.start == b.start
    &&& a.end == b.end
    &&& a.token == b.token
}

/// Only the recipient can withdraw, whatever secret the caller knows.
pub proof fn lemma_only_recipient_withdraws(s: SwapModel, caller: Seq<u8>, now: u64, secret: Seq<char>)
    requires
        withdrawal(s, caller, now, secret) is Ok,
    ensures
        caller == s.recipient,
{
}

/// A withdrawal succeeds only with a preimage of the stored hash, and it
/// publishes that preimage in the swap, where it can be checked.
pub proof fn lemma_withdraw_reveals_preimage(s: SwapModel, caller: Seq<u8>, now: u64, secret: Seq<char>)
    requires
        withdrawal(s, caller, now, secret) is Ok,
    ensures
        secret_hash(secret) == s.hash,
        withdrawal(s, caller, now, secret)->Ok_0.0.secret == secret,
        secret_hash(withdrawal(s, caller, now, secret)->Ok_0.0.secret)
            == withdrawal(s, caller, now, secret)->Ok_0.0.hash,
{
}

/// The recipient, before the deadline and with the right secret, always
/// receives all the tokens still locked.
pub proof fn lemma_recipient_is_paid(s: SwapModel, now: u64, secret: Seq<char>)
    requires
        now <= s.end,
        secret_hash(secret) == s.hash,
    ensures
        withdrawal(s, s.recipient, now, secret) is Ok,
        withdrawal(s, s.recipient, now, secret)->Ok_0.1.token == s.token,
        withdrawal(s, s.recipient, now, secret)->Ok_0.1.to == KeyModel::Account(s.recipient),
        withdrawal(s, s.recipient, now, secret)->Ok_0.1.amount == s.amount,
        withdrawal(s, s.recipient, now, secret)->Ok_0.0.amount == 0,
{
}

/// Only the owner can take the tokens back, and only after the deadline;
/// then the owner always receives all the tokens still locked.
pub proof fn lemma_refund_only_owner_after_deadline(s: SwapModel, caller: Seq<u8>, now: u64)
    ensures
        (refunding(s, caller, now) is Ok) <==> (caller == s.owner && now > s.end),
        refunding(s, caller, now) is Ok ==> {
            &&& refunding(s, caller, now)->Ok_0.1.token == s.token
            &&& refunding(s, caller, now)->Ok_0.1.to == KeyModel::Account(s.owner)
            &&& refunding(s, caller, now)->Ok_0.1.amount == s.amount
            &&& refunding(s, caller, now)->Ok_0.0.amount == 0
        },
{
}

/// The deadline separates the two ways out: at no block time can both a
/// withdrawal and a refund succeed. Up to the deadline only a withdrawal
/// can, after it only a refund.
pub proof fn lemma_deadline_separates(
    s: SwapModel,
    recipient_side: Seq<u8>,
    owner_side: Seq<u8>,
    now: u64,
    secret: Seq<char>,
)
    ensures
        !(withdrawal(s, recipient_side, now, secret) is Ok && refunding(s, owner_side, now) is Ok),
        withdrawal(s, recipient_side, now, secret) is Ok ==> now <= s.end,
        refunding(s, owner_side, now) is Ok ==> now > s.end,
        now > s.end ==> !(withdrawal(s, recipient_side, now, secret) is Ok),
{
}

/// Only the owner can replace the hash, and that changes nothing else.
pub proof fn lemma_only_owner_updates_hash(s: SwapModel, caller: Seq<u8>, hash: Seq<char>)
    ensures
        (hash_update(s, caller, hash) is Ok) <==> caller == s.owner,
        hash_update(s, caller, hash) is Ok ==> {
            let s2 = hash_update(s, caller, hash)->Ok_0;
            &&& s2.hash == hash
            &&& s2.secret == s.secret
            &&& s2.amount == s.amount
            &&& same_terms(s, s2)
        },
{
}

/// One call neither mints nor loses tokens: what it pays out plus what stays
/// locked is what was locked; and it keeps the swap's terms.
pub proof fn lemma_call_conserves(s: SwapModel, c: Call)
    ensures
        apply(s, c).1 + apply(s, c).0.amount == s.amount,
        same_terms(s, apply(s, c).0),
        apply(s, c).1 > 0 ==> apply(s, c).0.amount == 0,
{
}

/// Over any sequence of calls, the tokens paid out plus those still locked
/// are the tokens first locked, and the swap's terms stay as they were.
pub proof fn lemma_run_conserves(s: SwapModel, calls: Seq<Call>)
    ensures
        run(s, calls).1 + run(s, calls).0.amount == s.amount,
        same_terms(s, run(s, calls).0),
    decreases calls.len(),
{
    if calls.len() > 0 {
        lemma_run_conserves(s, calls.drop_last());
        lemma_call_conserves(run(s, calls.drop_last()).0, calls.last());
    }
}

/// Over any sequence of calls, the locked tokens are paid out at most once:
/// at most one call pays a positive amount, and after it nothing is locked.
pub proof fn lemma_single_payout(s: SwapModel, calls: Seq<Call>)
    ensures
        payouts(s, calls) <= 1,
        payouts(s, calls) == 1 ==> run(s, calls).0.amount == 0,
    decreases calls.len(),
{
    if calls.len() > 0 {
        lemma_single_payout(s, calls.drop_last());
        lemma_call_conserves(run(s, calls.drop_last()).0, calls.last());
    }
}

/// The hash of a secret covers all of it: it is the hexadecimal Keccak-256
/// digest of the secret's whole UTF-8 encoding.
pub proof fn lemma_secret_hash_covers_whole_secret(secret: Seq<char>)
    ensures
        secret_hash(secret) == hex_lower(keccak256_digest(encode_utf8(secret))),
        secret_hash(secret).len() == 2 * keccak256_digest(encode_utf8(secret)).len(),
{
    crate::hash::lemma_hex_lower_shape(keccak256_digest(encode_utf8(secret)));
}

proof fn lemma_hex_digit_injective(a: int, b: int)
    requires
        0 <= a < 16,
        0 <= b < 16,
        hex_digit(a) == hex_digit(b),
    ensures
        a == b,
{
    assert(hex_digit(a) as int == if a < 10 { 48 + a } else { 87 + a });
    assert(hex_digit(b) as int == if b < 10 { 48 + b } else { 87 + b });
}

/// Different byte strings have different hexadecimal encodings.
pub proof fn lemma_hex_lower_injective(a: Seq<u8>, b: Seq<u8>)
    requires
        hex_lower(a) == hex_lower(b),
    ensures
        a == b,
    decreases a.len(),
{
    crate::hash::lemma_hex_lower_shape(a);
    crate::hash::lemma_hex_lower_shape(b);
    if a.len() > 0 {
        let ha = hex_lower(a);
        let hb = hex_lower(b);
        assert(ha[0] == hb[0] && ha[1] == hb[1]);
        assert(ha[0] == hex_digit(a[0] as int / 16));
        assert(hb[0] == hex_digit(b[0] as int / 16));
        assert(ha[1] == hex_digit(a[0] as int % 16));
        assert(hb[1] == hex_digit(b[0] as int % 16));
        lemma_hex_digit_injective(a[0] as int / 16, b[0] as int / 16);
        lemma_hex_digit_injective(a[0] as int % 16, b[0] as int % 16);
        assert(a[0] == b[0]);
        assert(hex_lower(a.drop_first()) =~= ha.subrange(2, ha.len() as int));
        assert(hex_lower(b.drop_first()) =~= hb.subrange(2, hb.len() as int));
        lemma_hex_lower_injective(a.drop_first(), b.drop_first());
        assert(a =~= seq![a[0]] + a.drop_first());
        assert(b =~= seq![b[0]] + b.drop_first());
    }
}

/// Two secrets have the same hash exactly when the Keccak-256 digests of
/// their whole UTF-8 encodings agree.
pub proof fn lemma_same_hash_iff_same_digest(x: Seq<char>, y: Seq<char>)
    ensures
        (secret_hash(x) == secret_hash(y)) <==> (keccak256_digest(encode_utf8(x))
            == keccak256_digest(encode_utf8(y))),
{
    if secret_hash(x) == secret_hash(y) {
        lemma_hex_lower_injective(keccak256_digest(encode_utf8(x)), keccak256_digest(encode_utf8(y)));
    }
}

/// Before the deadline, the recipient's withdrawal succeeds exactly for the
/// secrets whose whole UTF-8 encoding hashes to the stored hash.
pub proof fn lemma_withdraw_checks_whole_secret(s: SwapModel, now: u64, secret: Seq<char>)
    requires
        now <= s.end,
    ensures
        (withdrawal(s, s.recipient, now, secret) is Ok) <==> (hex_lower(
            keccak256_digest(encode_utf8(secret)),
        ) == s.hash),
{
}

/// Funding succeeds exactly when the owner holds at least the amount; then,
/// whatever the balance, the whole amount of the swap's token moves into the
/// swap's own contract package.
pub proof fn lemma_funding_locks_in_package(s: SwapModel, balance: nat, package: Seq<u8>)
    ensures
        balance < s.amount ==> funding(s, balance, package) == Err::<
            crate::helper::TransferModel,
            Error,
        >(Error::NotEnoughBalance),
        balance >= s.amount ==> {
            &&& funding(s, balance, package) is Ok
            &&& funding(s, balance, package)->Ok_0.token == s.token
            &&& funding(s, balance, package)->Ok_0.to == KeyModel::Hash(package)
            &&& funding(s, balance, package)->Ok_0.amount == s.amount
        },
{
}

/// Every payout, by withdrawal or by refund, is a transfer of the swap's own
/// token, of all that is locked, to the recipient or to the owner.
pub proof fn lemma_payouts_use_swap_token(
    s: SwapModel,
    caller: Seq<u8>,
    now: u64,
    secret: Seq<char>,
)
    ensures
        withdrawal(s, caller, now, secret) is Ok ==> {
            &&& withdrawal(s, caller, now, secret)->Ok_0.1.token == s.token
            &&& withdrawal(s, caller, now, secret)->Ok_0.1.to == KeyModel::Account(s.recipient)
            &&& withdrawal(s, caller, now, secret)->Ok_0.1.amount == s.amount
        },
        refunding(s, caller, now) is Ok ==> {
            &&& refunding(s, caller, now)->Ok_0.1.token == s.token
            &&& refunding(s, caller, now)->Ok_0.1.to == KeyModel::Account(s.owner)
            &&& refunding(s, caller, now)->Ok_0.1.amount == s.amount
        },
{
}

/// A new swap starts at the install time and ends `duration` later: the
/// duration is a length of time, not an end time.
pub proof fn lemma_install_deadline(
    caller: Seq<u8>,
    now: u64,
    duration: u64,
    recipient: Seq<u8>,
    hash: Seq<char>,
    amount: nat,
    token: Seq<u8>,
)
    requires
        now + duration <= u64::MAX,
    ensures
        installed(caller, now, duration, recipient, hash, amount, token).start == now,
        installed(caller, now, duration, recipient, hash, amount, token).end == now + duration,
        installed(caller, now, duration, recipient, hash, amount, token).owner == caller,
        installed(caller, now, duration, recipient, hash, amount, token).recipient == recipient,
        installed(caller, now, duration, recipient, hash, amount, token).amount == amount,
        installed(caller, now, duration, recipient, hash, amount, token).token == token,
        installed(caller, now, duration, recipient, hash, amount, token).hash == hash,
        installed(caller, now, duration, recipient, hash, amount, token).secret.len() == 0,
{
}

/// Distinct errors reach the host as distinct values.
pub proof fn lemma_error_codes_distinct(a: Error, b: Error)
    requires
        a != b,
    ensures
        error_code(a) != error_code(b),
{
}

} // verus!
