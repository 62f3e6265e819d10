use vstd::prelude::*;

verus! {

/// The entry points that an installed swap offers.
#[derive(Clone, Copy, Debug, PartialEq, Eq, Structural)]
pub enum EntryPoint {
    UpdateHash,
    Refund,
    Withdraw,
}

/// The types of values that the entry points take and return.
#[derive(Clone, Copy, Debug, PartialEq, Eq, Structural)]
pub enum ValueType {
    Unit,
    String,
}

/// Who may call an entry point.
#[derive(Clone, Copy, Debug, PartialEq, Eq, Structural)]
pub enum Access {
    /// Anyone; the entry point checks its caller itself.
    Public,
}

/// How an entry point runs.
#[derive(Clone, Copy, Debug, PartialEq, Eq, Structural)]
pub enum EntryKind {
    /// In the context of the contract, with the contract's named keys.
    Contract,
}

/// The name under which an entry point is called.
pub open spec fn entry_name(e: EntryPoint) -> Seq<char> {
    match e {
        EntryPoint::UpdateHash => "update_hash"@,
        EntryPoint::Refund => "refund"@,
        EntryPoint::Withdraw => "withdraw"@,
    }
}

/// The name and type of the one argument an entry point takes, if any.
pub open spec fn entry_argument(e: EntryPoint) -> Option<(Seq<char>, ValueType)> {
    match e {
        EntryPoint::UpdateHash => Some(("hash"@, ValueType::String)),
        EntryPoint::Refund => None,
        EntryPoint::Withdraw => Some(("secret"@, ValueType::String)),
    }
}

impl EntryPoint {
    /// The name under which this entry point is called.
    pub fn name(&self) -> (r: &'static str)
        ensures
            r@ == entry_name(*self),
    {
        match self {
            EntryPoint::UpdateHash => "update_hash",
            EntryPoint::Refund => "refund",
            EntryPoint::Withdraw => "withdraw",
        }
    }

    /// The name and type of the argument this entry point takes, if any.
    pub fn argument(&self) -> (r: Option<(&'static str, ValueType)>)
        ensures
            match (r, entry_argument(*self)) {
                (Some((a, ta)), Some((b, tb))) => a@ == b && ta == tb,
                (None, None) => true,
                _ => false,
            },
    {
        match self {
            EntryPoint::UpdateHash => Some(("hash", ValueType::String)),
            EntryPoint::Refund => None,
            EntryPoint::Withdraw => Some(("secret", ValueType::String)),
        }
    }

    /// What this entry point returns: nothing.
    pub fn return_type(&self) -> (r: ValueType)
        ensures
            r == ValueType::Unit,
    {
        ValueType::Unit
    }

    /// Who may call this entry point: anyone.
    pub fn access(&self) -> (r: Access)
        ensures
            r == Access::Public,
    {
        Access::Public
    }

    /// How this entry point runs: as part of the contract.
    pub fn kind(&self) -> (r: EntryKind)
        ensures
            r == EntryKind::Contract,
    {
        EntryKind::Contract
    }
}

/// The entry points of an installed swap, in the order they are registered.
pub fn entry_points() -> (r: Vec<EntryPoint>)
    ensures
        r@ == seq![EntryPoint::UpdateHash, EntryPoint::Refund, EntryPoint::Withdraw],
{
    vec![EntryPoint::UpdateHash, EntryPoint::Refund, EntryPoint::Withdraw]
}

} // verus!
