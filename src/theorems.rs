use crate::board::{admits, lemma_worst_index, submitted, worst_index};
use crate::contract::{play_split, retained, share};
use crate::state::{ArcadeView, UserView};
use crate::utils::{paid_state, paid_transfer};
use vstd::arithmetic::div_mod::{lemma_div_by_multiple, lemma_mod_multiples_basic};
use vstd::prelude::*;

verus! {

/// The board after the candidates `us` were submitted in order, starting from `s`.
pub open spec fn board_after(s: Seq<UserView>, cap: nat, us: Seq<UserView>) -> Seq<UserView>
    decreases us.len(),
{
    if us.len() == 0 {
        s
    } else {
        submitted(board_after(s, cap, us.drop_last()), cap, us.last())
    }
}

/// The `k`-th candidate was turned away by the board it met.
pub open spec fn rejected_at(s: Seq<UserView>, cap: nat, us: Seq<UserView>, k: int) -> bool {
    !admits(board_after(s, cap, us.take(k)), cap, us[k])
}

/// Every entry of `b` scores at least `x`.
pub open spec fn floor_of(b: Seq<UserView>, x: u16) -> bool {
    forall|j: int| 0 <= j < b.len() ==> x <= #[trigger] b[j].score
}

/// One submission keeps the board within its capacity; on a full board it keeps the
/// board full and never lowers the lowest score held.
pub proof fn lemma_submit_step(b: Seq<UserView>, cap: nat, u: UserView, x: u16)
    ensures
        b.len() <= cap ==> submitted(b, cap, u).len() <= cap,
        b.len() == cap && floor_of(b, x) ==> submitted(b, cap, u).len() == cap && floor_of(
            submitted(b, cap, u),
            x,
        ),
{
    if b.len() > 0 {
        lemma_worst_index(b);
    }
    if b.len() == cap && floor_of(b, x) && admits(b, cap, u) {
        let w = worst_index(b);
        let nb = submitted(b, cap, u);
        assert forall|j: int| 0 <= j < nb.len() implies x <= #[trigger] nb[j].score by {
            if j != w {
                assert(nb[j] == b[j]);
            }
        }
    }
}

/// A turned-away candidate met a full board whose entries all score at least as high.
proof fn lemma_rejection_floor(b: Seq<UserView>, cap: nat, u: UserView)
    requires
        b.len() <= cap,
        !admits(b, cap, u),
    ensures
        b.len() == cap,
        floor_of(b, u.score),
        submitted(b, cap, u) == b,
{
    if b.len() > 0 {
        lemma_worst_index(b);
    }
}

/// Whatever candidates an administrator submits, the board never holds more than its
/// capacity, and once a candidate has been turned away, the board stays full and every
/// entry it holds from then on scores at least as high as that candidate.
pub proof fn lemma_board_bounded(s: Seq<UserView>, cap: nat, us: Seq<UserView>)
    requires
        s.len() <= cap,
    ensures
        board_after(s, cap, us).len() <= cap,
        forall|k: int|
            0 <= k < us.len() && #[trigger] rejected_at(s, cap, us, k) ==> board_after(
                s,
                cap,
                us,
            ).len() == cap && floor_of(board_after(s, cap, us), us[k].score),
    decreases us.len(),
{
    if us.len() > 0 {
        let prev = us.drop_last();
        let b = board_after(s, cap, prev);
        let u = us.last();
        lemma_board_bounded(s, cap, prev);
        lemma_submit_step(b, cap, u, 0);
        assert forall|k: int|
            0 <= k < us.len() && #[trigger] rejected_at(s, cap, us, k) implies board_after(
                s,
                cap,
                us,
            ).len() == cap && floor_of(board_after(s, cap, us), us[k].score) by {
            if k == us.len() - 1 {
                assert(us.take(k) =~= prev);
                lemma_rejection_floor(b, cap, u);
            } else {
                assert(us.take(k) =~= prev.take(k));
                assert(rejected_at(s, cap, prev, k));
                lemma_submit_step(b, cap, u, us[k].score);
            }
        }
    }
}

/// A payment of exactly the price for each recipient gives every recipient the price,
/// and leaves no remainder: the contract keeps exactly its own share.
pub proof fn lemma_exact_split(
    admins: Seq<Seq<char>>,
    me: Seq<char>,
    price: u128,
    amount: u128,
    denom: Seq<char>,
)
    requires
        amount == price * (admins.len() + 1),
    ensures
        forall|i: int|
            0 <= i < admins.len() + 1 ==> #[trigger] play_split(admins, me, amount, denom)[i].amount
                == price,
        amount as int % (admins.len() + 1) as int == 0,
        retained(amount, admins.len()) == price,
{
    let n = admins.len() + 1;
    lemma_div_by_multiple(price as int, n as int);
    lemma_mod_multiples_basic(price as int, n as int);
    assert(share(amount, admins.len()) == price);
    assert(price * (admins.len() + 1) == price * admins.len() + price) by (nonlinear_arith);
}

/// The payout path on an empty prize pool does nothing, however often it runs.
pub proof fn lemma_empty_payout_idempotent(v: ArcadeView, to: Seq<char>)
    ensures
        paid_state(v, 0) == v,
        paid_state(paid_state(v, 0), 0) == v,
        paid_transfer(v, to, 0) is None,
        paid_transfer(paid_state(v, 0), to, 0) is None,
{
}

} // verus!
