//! Origins of calls and the errors a dispatchable call can end with.
use vstd::prelude::*;

verus! {

/// Identifies an account.
pub type AccountId = u64;

/// Who a call is made on behalf of.
#[derive(Debug, Clone, Copy, PartialEq, Eq)]
pub enum Origin {
    /// The privileged root origin.
    Root,
    /// A call signed by the given account.
    Signed(AccountId),
    /// An unsigned call.
    Unsigned,
}

impl Origin {
    /// The origin of a call signed by `who`.
    pub fn signed(who: AccountId) -> (o: Origin)
        ensures
            o == Origin::Signed(who),
    {
        Origin::Signed(who)
    }
}

/// Why a dispatchable call was refused: the origin was not acceptable, or
/// the module `E` raised one of its own errors.
#[derive(Debug, PartialEq, Eq)]
pub enum DispatchError<E> {
    BadOrigin,
    Module(E),
}

/// The account that signed `origin`, if it is a signed origin.
pub open spec fn signer(origin: Origin) -> Option<AccountId> {
    match origin {
        Origin::Signed(who) => Some(who),
        _ => None,
    }
}

/// Returns the signing account, or `BadOrigin` for any origin that is not
/// signed.
pub fn ensure_signed<E>(origin: Origin) -> (r: Result<AccountId, DispatchError<E>>)
    ensures
        match signer(origin) {
            Some(who) => r == Ok::<AccountId, DispatchError<E>>(who),
            None => r == Err::<AccountId, DispatchError<E>>(DispatchError::BadOrigin),
        },
{
    match origin {
        Origin::Signed(who) => Ok(who),
        _ => Err(DispatchError::BadOrigin),
    }
}

} // verus!
