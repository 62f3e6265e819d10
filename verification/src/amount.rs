use vstd::prelude::*;

verus! {

/// 2^128, the weight of the high half of an amount.
pub open spec fn half_base() -> nat {
    u128::MAX as nat + 1
}

/// An unsigned 256-bit token amount, held as its high and low 128 bits.
#[derive(Clone, Copy, Debug)]
pub struct Amount {
    pub high: u128,
    pub low: u128,
}

impl View for Amount {
    type V = nat;

    open spec fn view(&self) -> nat {
        (self.high * half_base() + self.low) as nat
    }
}

proof fn lemma_split_order(h1: nat, l1: nat, h2: nat, l2: nat)
    requires
        l1 < half_base(),
        l2 < half_base(),
    ensures
        (h1 * half_base() + l1 < h2 * half_base() + l2) <==> (h1 < h2 || (h1 == h2 && l1 < l2)),
{
    assert((h1 * half_base() + l1 < h2 * half_base() + l2) <==> (h1 < h2 || (h1 == h2 && l1 < l2)))
        by (nonlinear_arith)
        requires
            l1 < half_base(),
            l2 < half_base(),
    ;
}

impl Amount {
    /// The amount zero.
    pub fn zero() -> (r: Amount)
        ensures
            r@ == 0,
    {
        Amount { high: 0, low: 0 }
    }

    /// Whether this amount is below `other`.
    pub fn is_less_than(&self, other: &Amount) -> (r: bool)
        ensures
            r == (self@ < other@),
    {
        proof {
            lemma_split_order(self.high as nat, self.low as nat, other.high as nat, other.low as nat);
        }
        self.high < other.high || (self.high == other.high && self.low < other.low)
    }
}

} // verus!
