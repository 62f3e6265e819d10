use vstd::prelude::*;

verus! {

/// The reasons for which the contract reverts a call.
#[derive(Clone, Copy, Debug, PartialEq, Eq, Structural)]
pub enum Error {
    /// The caller is not the account that the entry point is reserved for.
    InValidCaller,
    /// The secret does not hash to the stored hash.
    InValidSecret,
    /// The owner holds less than the amount to lock.
    NotEnoughBalance,
    /// The deadline has passed.
    TimeOut,
    /// The deadline has not passed yet.
    TimeUnOut,
}

/// The user error code of each error, as the contract reports it.
pub open spec fn error_code(e: Error) -> u16 {
    match e {
        Error::InValidCaller => 0,
        Error::InValidSecret => 1,
        Error::NotEnoughBalance => 2,
        Error::TimeOut => 3,
        Error::TimeUnOut => 4,
    }
}

/// The first host error value that is reserved for user errors.
pub open spec fn user_error_base() -> u32 {
    65536
}

impl Error {
    /// The user error code of this error.
    pub fn code(&self) -> (r: u16)
        ensures
            r == error_code(*self),
    {
        match self {
            Error::InValidCaller => 0,
            Error::InValidSecret => 1,
            Error::NotEnoughBalance => 2,
            Error::TimeOut => 3,
            Error::TimeUnOut => 4,
        }
    }

    /// The value that the host receives when the contract reverts with this
    /// error: the user error code above the host's reserved range.
    pub fn api_error_code(&self) -> (r: u32)
        ensures
            r == user_error_base() + error_code(*self),
    {
        user_api_error_value(self.code())
    }
}

/// `u32::from(casper_types::ApiError::User(code))`: casper-types maps a user
/// error code `code` to `u16::MAX + 1 + code`.
#[verifier::external_body]
fn user_api_error_value(code: u16) -> (r: u32)
    ensures
        r == user_error_base() + code,
{
    u32::from(casper_types::ApiError::User(code))
}

} // verus!
