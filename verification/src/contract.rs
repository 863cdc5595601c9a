use vstd::prelude::*;

use crate::account::AccountId;
use crate::error::ContractError;
use crate::ledger::Ledger;
use crate::msg::{BalanceResponse, ExecuteMsg, InstantiateMsg, Method, QueryMsg, Response};
use crate::state::State;

verus! {

/// One contract instance: the singleton state (absent until initialization)
/// and the balance ledger.
pub struct Contract {
    pub state: Option<State>,
    pub ledger: Ledger,
}

impl Contract {
    /// The instance is well formed when its ledger is.
    pub open spec fn wf(self) -> bool {
        self.ledger.wf()
    }

    /// A fresh, uninitialized instance: no state, every balance 0.
    pub fn new() -> (r: Contract)
        ensures
            r.wf(),
            r.state is None,
            forall|k: Seq<u8>| r.ledger.balance_of(k) == 0,
            r.ledger.total() == 0,
    {
        Contract { state: None, ledger: Ledger::new() }
    }
}

/// Exactly what a transfer of `amount` from `sender` to `receiver` does to
/// the ledger, in every outcome.
///
/// On success the sender had the funds; a self-transfer or a transfer of 0
/// changes no balance, and otherwise exactly the two parties' balances move
/// by `amount`. On failure nothing changes, the sender lacked the funds if
/// and only if the error is `InsufficientBalance`, and the credit would have
/// overflowed if and only if it is `Overflow`. Success is owed exactly when
/// the sender has the funds and the credited balance stays representable.
pub open spec fn transfer_outcome(
    before: Ledger,
    after: Ledger,
    sender: Seq<u8>,
    receiver: Seq<u8>,
    amount: u128,
    r: Result<Response, ContractError>,
) -> bool {
    &&& match r {
        Ok(resp) => {
            &&& before.balance_of(sender) >= amount
            &&& resp.method == Method::Empty
            &&& resp.owner is None
            &&& resp.burn_address is None
            &&& if sender == receiver {
                forall|k: Seq<u8>| after.balance_of(k) == before.balance_of(k)
            } else {
                &&& before.balance_of(receiver) + amount <= u128::MAX
                &&& after.balance_of(sender) == before.balance_of(sender) - amount
                &&& after.balance_of(receiver) == before.balance_of(receiver) + amount
                &&& forall|k: Seq<u8>|
                    k != sender && k != receiver ==> after.balance_of(k) == before.balance_of(k)
            }
        },
        Err(e) => {
            &&& after == before
            &&& (e == ContractError::InsufficientBalance <==> before.balance_of(sender) < amount)
            &&& (e == ContractError::Overflow <==> (before.balance_of(sender) >= amount && sender
                != receiver && before.balance_of(receiver) + amount > u128::MAX))
            &&& (e == ContractError::InsufficientBalance || e == ContractError::Overflow)
        },
    }
    &&& (r is Ok <==> (before.balance_of(sender) >= amount && (sender == receiver
        || before.balance_of(receiver) + amount <= u128::MAX)))
}

/// Credits `amount` to `account`, failing with `Overflow` (and writing
/// nothing) when the new balance would not be representable.
fn credit(ledger: &mut Ledger, account: &AccountId, amount: u128) -> (r: Result<
    (),
    ContractError,
>)
    requires
        old(ledger).wf(),
    ensures
        final(ledger).wf(),
        r is Ok <==> old(ledger).balance_of(account@) + amount <= u128::MAX,
        r is Ok ==> {
            &&& final(ledger).balance_of(account@) == old(ledger).balance_of(account@) + amount
            &&& forall|k: Seq<u8>|
                k != account@ ==> final(ledger).balance_of(k) == old(ledger).balance_of(k)
            &&& final(ledger).total() == old(ledger).total() + amount
        },
        r is Err ==> r == Err::<(), ContractError>(ContractError::Overflow) && *final(ledger)
            == *old(ledger),
{
    let apply = |balance: u128| -> (res: Result<u128, ContractError>)
        ensures
            res is Ok <==> balance + amount <= u128::MAX,
            res matches Ok(v) ==> v == balance + amount,
            res is Err ==> res == Err::<u128, ContractError>(ContractError::Overflow),
        {
            if balance > u128::MAX - amount {
                Err(ContractError::Overflow)
            } else {
                Ok(balance + amount)
            }
        };
    match ledger.update(account, apply) {
        Ok(_) => Ok(()),
        Err(e) => Err(e),
    }
}

/// Moves `amount` from `sender` to `receiver`.
///
/// The insufficient-funds and overflow checks both happen strictly before
/// any write, so an error leaves the instance untouched; every outcome
/// conserves the total supply, and the debit is proved never to take the
/// sender below zero. The debit and the credit are two separate store
/// writes, and for a self-transfer they are proved to net out.
pub fn transfer(
    contract: &mut Contract,
    sender: &AccountId,
    receiver: &AccountId,
    amount: u128,
) -> (r: Result<Response, ContractError>)
    requires
        old(contract).wf(),
    ensures
        final(contract).wf(),
        final(contract).state == old(contract).state,
        final(contract).ledger.total() == old(contract).ledger.total(),
        transfer_outcome(
            old(contract).ledger,
            final(contract).ledger,
            sender@,
            receiver@,
            amount,
            r,
        ),
        amount == 0 ==> r is Ok && forall|k: Seq<u8>|
            final(contract).ledger.balance_of(k) == old(contract).ledger.balance_of(k),
{
    let sender_balance = contract.ledger.get(sender);
    if sender_balance < amount {
        return Err(ContractError::InsufficientBalance);
    }
    if sender.same_as(receiver) {
        contract.ledger.set(sender, sender_balance - amount);
        let after_debit = contract.ledger.get(sender);
        contract.ledger.set(sender, after_debit + amount);
        Ok(Response::empty())
    } else {
        let receiver_balance = contract.ledger.get(receiver);
        if receiver_balance > u128::MAX - amount {
            return Err(ContractError::Overflow);
        }
        contract.ledger.set(sender, sender_balance - amount);
        let credited = contract.ledger.get(receiver);
        contract.ledger.set(receiver, credited + amount);
        Ok(Response::empty())
    }
}

/// The stored contract state.
///
/// Reading before initialization is an explicit `Uninitialized` failure,
/// never a panic or a silent default: it should be unreachable under the
/// host's single-initialization guarantee, but must stay observable.
pub fn read_state(contract: &Contract) -> (r: Result<&State, ContractError>)
    ensures
        match r {
            Ok(st) => contract.state matches Some(s) && *st == s,
            Err(e) => e == ContractError::Uninitialized && contract.state is None,
        },
{
    match &contract.state {
        None => Err(ContractError::Uninitialized),
        Some(st) => Ok(st),
    }
}

/// Moves `amount` from `sender` to the burn account fixed at initialization.
///
/// Burning conserves the total supply: it is a transfer to the burn account,
/// not a destruction. Fails with `Uninitialized` when no state was stored.
pub fn burn(contract: &mut Contract, sender: &AccountId, amount: u128) -> (r: Result<
    Response,
    ContractError,
>)
    requires
        old(contract).wf(),
    ensures
        final(contract).wf(),
        final(contract).state == old(contract).state,
        final(contract).ledger.total() == old(contract).ledger.total(),
        match old(contract).state {
            None => r == Err::<Response, ContractError>(ContractError::Uninitialized) && *final(contract) == *old(contract),
            Some(st) => transfer_outcome(
                old(contract).ledger,
                final(contract).ledger,
                sender@,
                st.burn_address@,
                amount,
                r,
            ),
        },
{
    let burn_target = match read_state(contract) {
        Err(e) => {
            return Err(e);
        },
        Ok(st) => st.burn_address.duplicate(),
    };
    transfer(contract, sender, &burn_target, amount)
}

/// Initializes the instance: stores the owner and the burn address, and
/// credits the initial supply to the caller.
///
/// The host invokes this exactly once per contract lifetime; the core itself
/// does not guard against a second call beyond its ordinary overflow check.
pub fn instantiate(contract: &mut Contract, caller: &AccountId, msg: InstantiateMsg) -> (r: Result<
    Response,
    ContractError,
>)
    requires
        old(contract).wf(),
    ensures
        final(contract).wf(),
        r is Ok <==> old(contract).ledger.balance_of(caller@) + msg.initial_balance <= u128::MAX,
        r matches Ok(resp) ==> {
            &&& final(contract).state matches Some(st) && st.owner@ == caller@ && st.burn_address@
                == msg.burn_address@
            &&& final(contract).ledger.balance_of(caller@) == old(contract).ledger.balance_of(
                caller@,
            ) + msg.initial_balance
            &&& forall|k: Seq<u8>|
                k != caller@ ==> final(contract).ledger.balance_of(k)
                    == old(contract).ledger.balance_of(k)
            &&& final(contract).ledger.total() == old(contract).ledger.total()
                + msg.initial_balance
            &&& resp.method == Method::Instantiate
            &&& resp.owner matches Some(o) && o@ == caller@
            &&& resp.burn_address matches Some(b) && b@ == msg.burn_address@
        },
        r is Err ==> r == Err::<Response, ContractError>(ContractError::Overflow) && *final(contract) == *old(contract),
{
    match credit(&mut contract.ledger, caller, msg.initial_balance) {
        Err(e) => Err(e),
        Ok(()) => {
            let resp = Response {
                method: Method::Instantiate,
                owner: Some(caller.duplicate()),
                burn_address: Some(msg.burn_address.duplicate()),
            };
            contract.state = Some(
                State { burn_address: msg.burn_address, owner: caller.duplicate() },
            );
            Ok(resp)
        },
    }
}

/// Routes one mutating command to transfer or burn. The caller is the
/// authenticated sender from the host's invocation envelope.
pub fn execute(contract: &mut Contract, caller: &AccountId, msg: ExecuteMsg) -> (r: Result<
    Response,
    ContractError,
>)
    requires
        old(contract).wf(),
    ensures
        final(contract).wf(),
        final(contract).state == old(contract).state,
        final(contract).ledger.total() == old(contract).ledger.total(),
        match msg {
            ExecuteMsg::Transfer { receiver, amount } => transfer_outcome(
                old(contract).ledger,
                final(contract).ledger,
                caller@,
                receiver@,
                amount,
                r,
            ),
            ExecuteMsg::Burn { amount } => match old(contract).state {
                None => r == Err::<Response, ContractError>(ContractError::Uninitialized)
                    && *final(contract) == *old(contract),
                Some(st) => transfer_outcome(
                    old(contract).ledger,
                    final(contract).ledger,
                    caller@,
                    st.burn_address@,
                    amount,
                    r,
                ),
            },
        },
{
    match msg {
        ExecuteMsg::Transfer { receiver, amount } => transfer(contract, caller, &receiver, amount),
        ExecuteMsg::Burn { amount } => burn(contract, caller, amount),
    }
}

/// Answers one read-only query. Never fails: an account never credited
/// simply reads as balance 0.
pub fn query(contract: &Contract, msg: QueryMsg) -> (r: BalanceResponse)
    requires
        contract.wf(),
    ensures
        match msg {
            QueryMsg::GetBalance { address } => r.balance == contract.ledger.balance_of(address@),
        },
{
    match msg {
        QueryMsg::GetBalance { address } => query_balance(contract, &address),
    }
}

/// The balance of `address`: the stored amount, or 0 when none was stored.
pub fn query_balance(contract: &Contract, address: &AccountId) -> (r: BalanceResponse)
    requires
        contract.wf(),
    ensures
        r.balance == contract.ledger.balance_of(address@),
{
    BalanceResponse { balance: contract.ledger.get(address) }
}

} // verus!
