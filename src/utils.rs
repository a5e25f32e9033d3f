use crate::board::beats_all;
use crate::state::{ArcadeState, ArcadeView, Coin, Transfer, TransferView, User, user_views};
use cw_utils::PaymentError;
use vstd::prelude::*;

verus! {

#[verifier::external_type_specification]
pub struct ExPaymentError(PaymentError);

/// The denomination that a `MissingDenom` error names.
pub open spec fn missing_denom(e: PaymentError) -> Option<Seq<char>> {
    match e {
        PaymentError::MissingDenom(d) => Some(d@),
        _ => None,
    }
}

/// The funds are exactly one non-zero coin of `denom`.
pub open spec fn pays(funds: Seq<Coin>, denom: Seq<char>) -> bool {
    funds.len() == 1 && funds[0].amount != 0 && funds[0].denom@ == denom
}

/// Relies on cw_utils::must_pay (through its helper one_coin): no coin or a zero amount
/// is `NoFunds`, more than one coin is `MultipleDenoms`, another denomination is
/// `MissingDenom(denom)`, and otherwise the amount of the one coin is returned.
#[verifier::external_body]
pub(crate) fn must_pay(sender: &String, funds: &Vec<Coin>, denom: &String)
    -> (r: Result<u128, PaymentError>)
    ensures
        pays(funds@, denom@) ==> (r is Ok && r->Ok_0 == funds@[0].amount),
        funds.len() == 0 || (funds.len() == 1 && funds@[0].amount == 0) ==> (r matches Err(PaymentError::NoFunds { .. })),
        funds.len() > 1 ==> (r matches Err(PaymentError::MultipleDenoms { .. })),
        funds.len() == 1 && funds@[0].amount != 0 && funds@[0].denom@ != denom@ ==> (r is Err && missing_denom(r->Err_0) == Some(denom@)),
{
    let info = cosmwasm_std::MessageInfo {
        sender: cosmwasm_std::Addr::unchecked(sender.as_str()),
        funds: funds.iter().map(|c| cosmwasm_std::Coin::new(c.amount, c.denom.as_str())).collect(),
    };
    cw_utils::must_pay(&info, denom).map(|a| a.u128())
}

/// Whether `user` scores strictly higher than every entry on a non-empty board.
pub fn user_is_top(heap: &Vec<User>, user: &User) -> (r: bool)
    ensures
        r == beats_all(user_views(heap@), user@.score),
{
    let ghost s = user_views(heap@);
    if heap.len() == 0 {
        return false;
    }
    let mut i: usize = 0;
    while i < heap.len()
        invariant
            s == user_views(heap@),
            i <= heap.len(),
            forall|j: int| 0 <= j < i ==> s[j].score < user@.score,
        decreases heap.len() - i,
    {
        if heap[i].score.0 >= user.score.0 {
            assert(s[i as int].score >= user@.score);
            return false;
        }
        i = i + 1;
    }
    true
}

/// The state after the payout path ran on the queried `balance`.
pub open spec fn paid_state(v: ArcadeView, balance: u128) -> ArcadeView {
    if balance == 0 {
        v
    } else {
        ArcadeView { total_distributed: (v.total_distributed + balance) as u128, ..v }
    }
}

/// The instruction the payout path emits: the whole balance to the winner, if there is any.
pub open spec fn paid_transfer(v: ArcadeView, to: Seq<char>, balance: u128)
    -> Option<TransferView> {
    if balance == 0 {
        None
    } else {
        Some(TransferView { to_address: to, amount: balance, denom: v.denom })
    }
}

/// Sends the contract's whole `balance` to `user` and records it as distributed.
/// A zero balance is no error: nothing is sent and nothing changes.
pub fn send_coins(state: &mut ArcadeState, user: &User, balance: u128) -> (r: Option<Transfer>)
    requires
        old(state).total_distributed + balance <= u128::MAX,
    ensures
        final(state)@ == paid_state(old(state)@, balance),
        r matches Some(t) ==> paid_transfer(old(state)@, user@.address, balance) == Some(t@),
        r is None <==> paid_transfer(old(state)@, user@.address, balance) is None,
{
    if balance == 0 {
        return None;
    }
    state.total_distributed = state.total_distributed + balance;
    Some(Transfer { to_address: user.address.clone(), amount: balance, denom: state.denom.clone() })
}

} // verus!
