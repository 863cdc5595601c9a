use vstd::prelude::*;

use crate::account::AccountId;

verus! {

/// The singleton contract state, written exactly once during initialization
/// and read-only afterward.
///
/// `owner` is stored for schema compatibility with external tooling; no
/// operation currently consults it for authorization or anything else.
#[derive(Debug)]
pub struct State {
    pub burn_address: AccountId,
    pub owner: AccountId,
}

} // verus!
