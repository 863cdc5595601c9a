use vstd::prelude::*;

use crate::account::AccountId;

verus! {

/// Initialization input: the designated burn account and the initial supply
/// credited to the deploying caller.
#[derive(Debug)]
pub struct InstantiateMsg {
    pub burn_address: AccountId,
    pub initial_balance: u128,
}

/// A mutating command. The sender of either variant is the authenticated
/// caller supplied by the host's invocation envelope, never a field of the
/// message body.
#[derive(Debug)]
pub enum ExecuteMsg {
    Transfer { receiver: AccountId, amount: u128 },
    Burn { amount: u128 },
}

/// A read-only query.
#[derive(Debug)]
pub enum QueryMsg {
    GetBalance { address: AccountId },
}

/// Answer to [`QueryMsg::GetBalance`].
#[derive(Clone, Copy, Debug, PartialEq, Eq, Structural)]
pub struct BalanceResponse {
    pub balance: u128,
}

/// The `method` attribute tag a successful invocation reports.
#[derive(Clone, Copy, Debug, PartialEq, Eq, Structural)]
pub enum Method {
    /// Reported by initialization.
    Instantiate,
    /// Reported by transfer and burn, which carry no further detail.
    Empty,
}

/// Observability attributes of a successful mutating invocation: a `method`
/// tag, plus the owner and burn address when initialization reports them.
#[derive(Debug)]
pub struct Response {
    pub method: Method,
    pub owner: Option<AccountId>,
    pub burn_address: Option<AccountId>,
}

impl Response {
    /// The bare response of transfer and burn.
    pub fn empty() -> (r: Response)
        ensures
            r.method == Method::Empty,
            r.owner is None,
            r.burn_address is None,
    {
        Response { method: Method::Empty, owner: None, burn_address: None }
    }
}

} // verus!
