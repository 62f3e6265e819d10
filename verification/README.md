# atomic_swap

A hash time-locked contract for swapping tokens: the owner locks an amount of
a token for a recipient behind the Keccak-256 hash of a secret and a deadline.
Up to the deadline the recipient can withdraw the tokens by presenting the
secret, which the contract then publishes; after the deadline the owner can
take the tokens back.

- `src/` is the verified library: the swap's state (`swap.rs`), its amounts
  (`amount.rs`), accounts and keys (`account.rs`), the secret's hash
  (`hash.rs`), the checks on callers and time (`validator.rs`, `helper.rs`),
  the entry-point table (`entry.rs`), the error codes (`error.rs`), and the
  laws that hold over every sequence of calls (`laws.rs`).
- `app/` is the contract against the Casper host: it reads the named keys,
  lets the library decide, and performs the storage writes, token transfers
  and reverts.
