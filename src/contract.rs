use crate::board::{admits, crowns, find_worst, lemma_worst_index, submitted, worst_index};
use crate::error::{ContractError, PaymentFault};
use crate::msg::{
    AdminsListResp, ExecuteMsg, GameCounterResp, GamePriceResp, InstantiateMsg,
    ScoreboardListResp, TotalDistributionResp,
};
use crate::state::{
    ArcadeState, ArcadeView, Coin, Executed, Played, Transfer, TransferView, User, UserView, ids,
    user_views,
};
use crate::theorems::lemma_submit_step;
use crate::utils::{must_pay, pays, user_is_top};
use cw_utils::PaymentError;
use vstd::prelude::*;

verus! {

pub open spec fn transfer_views(v: Seq<Transfer>) -> Seq<TransferView> {
    v.map_values(|t: Transfer| t@)
}

/// What each recipient of a paid game gets: an even share, rounded down.
pub open spec fn share(amount: u128, n_admins: nat) -> u128 {
    (amount as nat / (n_admins + 1)) as u128
}

/// What the contract keeps of a payment: its own share and the remainder of the division.
pub open spec fn retained(amount: u128, n_admins: nat) -> int {
    amount - share(amount, n_admins) * n_admins
}

/// The instructions of a paid game: one share to each administrator in order,
/// then one to the contract's own account.
pub open spec fn play_split(admins: Seq<Seq<char>>, me: Seq<char>, amount: u128, denom: Seq<char>)
    -> Seq<TransferView> {
    admins.push(me).map_values(
        |a: Seq<char>| TransferView { to_address: a, amount: share(amount, admins.len()), denom },
    )
}

/// The reason given when the funds are not a payment in `denom`.
pub open spec fn payment_fault(funds: Seq<Coin>, denom: Seq<char>, f: PaymentFault) -> bool {
    if funds.len() == 0 || (funds.len() == 1 && funds[0].amount == 0) {
        f is NoFunds
    } else if funds.len() > 1 {
        f is MultipleDenoms
    } else {
        f matches PaymentFault::MissingDenom(d) && d@ == denom
    }
}

pub open spec fn fault_of(e: PaymentError) -> PaymentFault {
    match e {
        PaymentError::MissingDenom(d) => PaymentFault::MissingDenom(d),
        PaymentError::ExtraDenom(d) => PaymentFault::ExtraDenom(d),
        PaymentError::MultipleDenoms {  } => PaymentFault::MultipleDenoms,
        PaymentError::NoFunds {  } => PaymentFault::NoFunds,
        PaymentError::NonPayable {  } => PaymentFault::NonPayable,
    }
}

fn fault_from(e: PaymentError) -> (f: PaymentFault)
    ensures
        f == fault_of(e),
{
    match e {
        PaymentError::MissingDenom(d) => PaymentFault::MissingDenom(d),
        PaymentError::ExtraDenom(d) => PaymentFault::ExtraDenom(d),
        PaymentError::MultipleDenoms {  } => PaymentFault::MultipleDenoms,
        PaymentError::NoFunds {  } => PaymentFault::NoFunds,
        PaymentError::NonPayable {  } => PaymentFault::NonPayable,
    }
}

/// Membership in the administrator list, the only authorization test.
pub fn is_admin(admins: &Vec<String>, who: &String) -> (r: bool)
    ensures
        r == ids(admins@).contains(who@),
{
    let ghost s = ids(admins@);
    let mut i: usize = 0;
    while i < admins.len()
        invariant
            s == ids(admins@),
            i <= admins.len(),
            forall|j: int| 0 <= j < i ==> s[j] != who@,
        decreases admins.len() - i,
    {
        if admins[i] == *who {
            assert(s[i as int] == who@);
            return true;
        }
        i = i + 1;
    }
    false
}

/// A paid game. The funds must be one non-zero coin of the arcade's denomination and
/// at least the price; a smaller payment is refused and handed back whole. The payment
/// is shared evenly by the administrators and the contract, which keeps the remainder;
/// a share rounded down to zero still gets its instruction. The game counter must have
/// room for one more game.
pub fn play(state: &mut ArcadeState, sender: &String, contract_address: &String, funds: &Vec<Coin>)
    -> (r: Result<Played, ContractError>)
    requires
        old(state).game_counter < u32::MAX,
    ensures
        !pays(funds@, old(state)@.denom) ==> (r matches Err(ContractError::Payment { fault }) && payment_fault(funds@, old(state)@.denom, fault)),
        pays(funds@, old(state)@.denom) && funds@[0].amount < old(state).price_peer_game ==> (r matches Err(ContractError::InsufficientPayment { refund }) && refund@ == (TransferView { to_address: sender@, amount: funds@[0].amount, denom: old(state)@.denom })),
        r is Err ==> *final(state) == *old(state),
        pays(funds@, old(state)@.denom) && funds@[0].amount >= old(state).price_peer_game ==> (r matches Ok(p) && p.received_tokens == funds@[0].amount && transfer_views(p.transfers@) == play_split(old(state)@.admins, contract_address@, funds@[0].amount, old(state)@.denom)),
        r is Ok ==> final(state)@ == (ArcadeView { game_counter: (old(state).game_counter + 1) as u32, ..old(state)@ }),
{
    let amount = match must_pay(sender, funds, &state.denom) {
        Ok(a) => a,
        Err(e) => {
            return Err(ContractError::Payment { fault: fault_from(e) });
        },
    };
    if amount < state.price_peer_game {
        let refund = Transfer { to_address: sender.clone(), amount, denom: state.denom.clone() };
        return Err(ContractError::InsufficientPayment { refund });
    }
    let admins = &state.admins;
    let denom = &state.denom;
    let ghost goal = play_split(ids(admins@), contract_address@, amount, denom@);
    let each: u128 = amount / (admins.len() as u128 + 1);
    assert(each == share(amount, admins@.len()));
    let mut transfers: Vec<Transfer> = Vec::new();
    let mut i: usize = 0;
    while i < admins.len()
        invariant
            goal == play_split(ids(admins@), contract_address@, amount, denom@),
            each == share(amount, admins@.len()),
            i <= admins.len(),
            transfers@.len() == i,
            forall|k: int| 0 <= k < i ==> #[trigger] transfers@[k]@ == goal[k],
        decreases admins.len() - i,
    {
        transfers.push(Transfer { to_address: admins[i].clone(), amount: each, denom: denom.clone() });
        i = i + 1;
    }
    transfers.push(Transfer { to_address: contract_address.clone(), amount: each, denom: denom.clone() });
    assert(transfer_views(transfers@) =~= goal);
    state.game_counter = state.game_counter + 1;
    Ok(Played { transfers, received_tokens: amount })
}

/// The state a new arcade starts from, once the host has accepted every administrator's
/// identifier (`admins_valid`); otherwise the host's reason is returned.
pub fn instantiate(msg: InstantiateMsg, admins_valid: Result<(), String>) -> (r: Result<ArcadeState, ContractError>)
    ensures
        admins_valid is Err ==> (r matches Err(ContractError::InvalidAddress { reason }) && reason == admins_valid->Err_0),
        admins_valid is Ok ==> (r matches Ok(s) && s@ == (ArcadeView { admins: ids(msg.admins@), arcade: msg.arcade@, denom: msg.denom@, price: msg.price_peer_game, max_top_scores: msg.max_top_score, top_users: Seq::empty(), game_counter: 0, total_distributed: 0 })),
{
    match admins_valid {
        Err(reason) => Err(ContractError::InvalidAddress { reason }),
        Ok(()) => {
            let state = ArcadeState {
                admins: msg.admins,
                arcade: msg.arcade,
                denom: msg.denom,
                price_peer_game: msg.price_peer_game,
                max_top_scores: msg.max_top_score,
                top_users: Vec::new(),
                game_counter: 0,
                total_distributed: 0,
            };
            assert(user_views(state.top_users@) =~= Seq::<UserView>::empty());
            Ok(state)
        },
    }
}

/// Submits a score on an administrator's behalf. While the board has room the entry joins
/// it; once full, an entry that beats the worst one replaces it. If the newcomer also beats
/// every entry held, it is returned: it has earned the prize pool (see `send_coins`).
pub fn add_user(state: &mut ArcadeState, sender: &String, user: User) -> (r: Result<Option<User>, ContractError>)
    ensures
        !old(state)@.is_admin(sender@) ==> (r matches Err(ContractError::Unauthorized { sender: s }) && s@ == sender@),
        r is Err ==> *final(state) == *old(state),
        old(state)@.is_admin(sender@) ==> r is Ok,
        r is Ok ==> final(state)@ == (ArcadeView { top_users: submitted(old(state)@.top_users, old(state)@.max_top_scores as nat, user@), ..old(state)@ }),
        r is Ok ==> ((r matches Ok(None)) <==> !crowns(old(state)@.top_users, old(state)@.max_top_scores as nat, user@)),
        r matches Ok(Some(w)) ==> w@ == user@,
        old(state)@.wf() ==> final(state)@.wf(),
{
    proof {
        lemma_submit_step(old(state)@.top_users, old(state)@.max_top_scores as nat, user@, 0);
    }
    if !is_admin(&state.admins, sender) {
        return Err(ContractError::Unauthorized { sender: sender.clone() });
    }
    let ghost s = user_views(state.top_users@);
    let ghost u = user@;
    let ghost cap = state.max_top_scores as nat;
    let n = state.top_users.len();
    if n < state.max_top_scores as usize {
        state.top_users.push(user);
        assert(user_views(state.top_users@) =~= s.push(u));
        return Ok(None);
    }
    if n == 0 {
        return Ok(None);
    }
    proof {
        lemma_worst_index(s);
    }
    let w = find_worst(&state.top_users);
    if state.top_users[w].score.0 < user.score.0 {
        let winner = if user_is_top(&state.top_users, &user) {
            Some(user.duplicate())
        } else {
            None
        };
        state.top_users.set(w, user);
        assert(user_views(state.top_users@) =~= s.update(worst_index(s), u));
        Ok(winner)
    } else {
        assert(!admits(s, cap, u));
        assert(s[worst_index(s)].score >= u.score);
        Ok(None)
    }
}

/// Appends identifiers to the administrator list; only an administrator may, and only
/// once the host has accepted every new identifier (`admins_valid`).
pub fn add_members(state: &mut ArcadeState, sender: &String, admins: Vec<String>, admins_valid: Result<(), String>) -> (r: Result<(), ContractError>)
    ensures
        !old(state)@.is_admin(sender@) ==> (r matches Err(ContractError::Unauthorized { sender: s }) && s@ == sender@),
        old(state)@.is_admin(sender@) && admins_valid is Err ==> (r matches Err(ContractError::InvalidAddress { reason }) && reason == admins_valid->Err_0),
        old(state)@.is_admin(sender@) && admins_valid is Ok ==> r is Ok,
        r is Err ==> *final(state) == *old(state),
        r is Ok ==> final(state)@ == (ArcadeView { admins: old(state)@.admins + ids(admins@), ..old(state)@ }),
{
    if !is_admin(&state.admins, sender) {
        return Err(ContractError::Unauthorized { sender: sender.clone() });
    }
    if let Err(reason) = admins_valid {
        return Err(ContractError::InvalidAddress { reason });
    }
    let ghost before = state.admins@;
    let ghost added = admins@;
    let mut admins = admins;
    state.admins.append(&mut admins);
    assert(ids(state.admins@) =~= ids(before) + ids(added));
    Ok(())
}

/// The administrator list with every occurrence of `who` taken out.
pub open spec fn without(admins: Seq<Seq<char>>, who: Seq<char>) -> Seq<Seq<char>> {
    admins.filter(|a: Seq<char>| a != who)
}

/// The caller gives up administrator rights: every occurrence of it leaves the list.
/// Anyone may call this, and the last administrator may leave too.
pub fn leave(state: &mut ArcadeState, sender: &String)
    ensures
        final(state)@ == (ArcadeView { admins: without(old(state)@.admins, sender@), ..old(state)@ }),
{
    let mut kept: Vec<String> = Vec::new();
    let admins = &state.admins;
    let ghost s = ids(admins@);
    let mut i: usize = 0;
    while i < admins.len()
        invariant
            s == ids(admins@),
            i <= admins.len(),
            ids(kept@) == without(s.take(i as int), sender@),
        decreases admins.len() - i,
    {
        let ghost before = kept@;
        if admins[i] != *sender {
            kept.push(admins[i].clone());
            assert(ids(kept@) =~= ids(before).push(s[i as int]));
        }
        proof {
            let t = s.take(i + 1);
            assert(t.drop_last() =~= s.take(i as int));
            assert(t.last() == s[i as int]);
            reveal(Seq::filter);
        }
        i = i + 1;
    }
    assert(s.take(s.len() as int) =~= s);
    state.admins = kept;
}

/// Sets the price of a game; only an administrator may.
pub fn update_price(state: &mut ArcadeState, sender: &String, price: u128) -> (r: Result<(), ContractError>)
    ensures
        !old(state)@.is_admin(sender@) ==> (r matches Err(ContractError::Unauthorized { sender: s }) && s@ == sender@),
        r is Err ==> *final(state) == *old(state),
        old(state)@.is_admin(sender@) ==> r is Ok,
        r is Ok ==> final(state)@ == (ArcadeView { price, ..old(state)@ }),
{
    if !is_admin(&state.admins, sender) {
        return Err(ContractError::Unauthorized { sender: sender.clone() });
    }
    state.price_peer_game = price;
    Ok(())
}

/// Runs one command for `sender`. `admins_valid` is the host's verdict on the identifiers
/// an `AddAdmin` command carries; other commands ignore it.
pub fn execute(
    state: &mut ArcadeState,
    sender: &String,
    contract_address: &String,
    funds: &Vec<Coin>,
    msg: ExecuteMsg,
    admins_valid: Result<(), String>,
) -> (r: Result<Executed, ContractError>)
    requires
        msg is Play ==> old(state).game_counter < u32::MAX,
    ensures
        r is Err ==> *final(state) == *old(state),
        r matches Ok(e) ==> (e.winner is Some ==> msg is AddTopUser) && (e.received_tokens is Some <==> msg is Play) && (!(msg is Play) ==> e.transfers@.len() == 0),
        msg matches ExecuteMsg::AddAdmin { admins } ==> {
            &&& !old(state)@.is_admin(sender@) ==> (r matches Err(ContractError::Unauthorized { sender: s }) && s@ == sender@)
            &&& old(state)@.is_admin(sender@) && admins_valid is Err ==> (r matches Err(ContractError::InvalidAddress { reason }) && reason == admins_valid->Err_0)
            &&& old(state)@.is_admin(sender@) && admins_valid is Ok ==> r is Ok
            &&& r is Ok ==> final(state)@ == (ArcadeView { admins: old(state)@.admins + ids(admins@), ..old(state)@ })
        },
        msg matches ExecuteMsg::AddTopUser { user } ==> {
            &&& !old(state)@.is_admin(sender@) ==> (r matches Err(ContractError::Unauthorized { sender: s }) && s@ == sender@)
            &&& old(state)@.is_admin(sender@) ==> r is Ok
            &&& r is Ok ==> final(state)@ == (ArcadeView { top_users: submitted(old(state)@.top_users, old(state)@.max_top_scores as nat, user@), ..old(state)@ })
            &&& r matches Ok(e) ==> (e.winner is Some <==> crowns(old(state)@.top_users, old(state)@.max_top_scores as nat, user@))
            &&& r matches Ok(e) ==> (e.winner matches Some(w) ==> w@ == user@)
        },
        msg is Leave ==> r is Ok && final(state)@ == (ArcadeView { admins: without(old(state)@.admins, sender@), ..old(state)@ }),
        msg is Play ==> {
            &&& !pays(funds@, old(state)@.denom) ==> (r matches Err(ContractError::Payment { fault }) && payment_fault(funds@, old(state)@.denom, fault))
            &&& pays(funds@, old(state)@.denom) && funds@[0].amount < old(state).price_peer_game ==> (r matches Err(ContractError::InsufficientPayment { refund }) && refund@ == (TransferView { to_address: sender@, amount: funds@[0].amount, denom: old(state)@.denom }))
            &&& pays(funds@, old(state)@.denom) && funds@[0].amount >= old(state).price_peer_game ==> (r matches Ok(e) && e.received_tokens == Some(funds@[0].amount) && transfer_views(e.transfers@) == play_split(old(state)@.admins, contract_address@, funds@[0].amount, old(state)@.denom))
            &&& r is Ok ==> final(state)@ == (ArcadeView { game_counter: (old(state).game_counter + 1) as u32, ..old(state)@ })
        },
        msg matches ExecuteMsg::UpdatePrice { price } ==> {
            &&& !old(state)@.is_admin(sender@) ==> (r matches Err(ContractError::Unauthorized { sender: s }) && s@ == sender@)
            &&& old(state)@.is_admin(sender@) ==> r is Ok
            &&& r is Ok ==> final(state)@ == (ArcadeView { price, ..old(state)@ })
        },
{
    match msg {
        ExecuteMsg::AddAdmin { admins } => {
            add_members(state, sender, admins, admins_valid)?;
            Ok(Executed { transfers: Vec::new(), winner: None, received_tokens: None })
        },
        ExecuteMsg::AddTopUser { user } => {
            let winner = add_user(state, sender, user)?;
            Ok(Executed { transfers: Vec::new(), winner, received_tokens: None })
        },
        ExecuteMsg::Leave {  } => {
            leave(state, sender);
            Ok(Executed { transfers: Vec::new(), winner: None, received_tokens: None })
        },
        ExecuteMsg::Play {  } => {
            let played = play(state, sender, contract_address, funds)?;
            Ok(
                Executed {
                    transfers: played.transfers,
                    winner: None,
                    received_tokens: Some(played.received_tokens),
                },
            )
        },
        ExecuteMsg::UpdatePrice { price } => {
            update_price(state, sender, price)?;
            Ok(Executed { transfers: Vec::new(), winner: None, received_tokens: None })
        },
    }
}

/// The entries on the board.
pub fn scoreboard(state: &ArcadeState) -> (r: ScoreboardListResp)
    ensures
        user_views(r.scores@) == state@.top_users,
{
    let scores = state.top_users.clone();
    assert(user_views(scores@) =~= state@.top_users);
    ScoreboardListResp { scores }
}

/// The administrators, in the order they were added.
pub fn admins_list(state: &ArcadeState) -> (r: AdminsListResp)
    ensures
        ids(r.admins@) == state@.admins,
{
    let admins = state.admins.clone();
    assert(ids(admins@) =~= state@.admins);
    AdminsListResp { admins }
}

/// How many paid games were played.
pub fn game_counter(state: &ArcadeState) -> (r: GameCounterResp)
    ensures
        r.game_counter == state.game_counter,
{
    GameCounterResp { game_counter: state.game_counter }
}

/// The price of a game.
pub fn get_price(state: &ArcadeState) -> (r: GamePriceResp)
    ensures
        r.price == state.price_peer_game,
{
    GamePriceResp { price: state.price_peer_game }
}

/// The sum of all prize pools paid out so far.
pub fn total_distributed(state: &ArcadeState) -> (r: TotalDistributionResp)
    ensures
        r.total_distributed == state.total_distributed,
{
    TotalDistributionResp { total_distributed: state.total_distributed }
}

} // verus!
