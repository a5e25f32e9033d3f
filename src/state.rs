use std::cmp::Reverse;
use vstd::prelude::*;

verus! {

/// `Reverse` is a plain wrapper with one public field; the contracts read the field.
#[verifier::external_type_specification]
#[verifier::reject_recursive_types(T)]
pub struct ExReverse<T>(Reverse<T>);

/// A leaderboard entry. The score sits in `Reverse` so that the natural order of
/// entries puts the lowest score on top of a max-ordered heap; higher scores are better.
#[derive(Debug, PartialEq, Eq)]
pub struct User {
    pub name: String,
    pub address: String,
    pub score: Reverse<u16>,
}

pub struct UserView {
    pub name: Seq<char>,
    pub address: Seq<char>,
    pub score: u16,
}

impl View for User {
    type V = UserView;

    open spec fn view(&self) -> UserView {
        UserView { name: self.name@, address: self.address@, score: self.score.0 }
    }
}

impl User {
    /// A field-by-field copy whose result is known to equal the original.
    pub fn duplicate(&self) -> (r: User)
        ensures
            r@ == self@,
    {
        User { name: self.name.clone(), address: self.address.clone(), score: Reverse(self.score.0) }
    }
}

impl Clone for User {
    fn clone(&self) -> (r: User)
        ensures
            r@ == self@,
    {
        self.duplicate()
    }
}

/// One instruction to move `amount` of `denom` to `to_address`; settlement is left to the host.
#[derive(Debug, Clone, PartialEq, Eq)]
pub struct Transfer {
    pub to_address: String,
    pub amount: u128,
    pub denom: String,
}

pub struct TransferView {
    pub to_address: Seq<char>,
    pub amount: u128,
    pub denom: Seq<char>,
}

impl View for Transfer {
    type V = TransferView;

    open spec fn view(&self) -> TransferView {
        TransferView { to_address: self.to_address@, amount: self.amount, denom: self.denom@ }
    }
}

/// What a paid game hands back: one instruction per recipient, and the amount received.
#[derive(Debug, Clone, PartialEq, Eq)]
pub struct Played {
    pub transfers: Vec<Transfer>,
    pub received_tokens: u128,
}

/// What a command hands back to the host: instructions to execute, the entry that won the
/// prize pool (whose payout needs the contract's balance, see `send_coins`), and the amount
/// received by a paid game.
#[derive(Debug, Clone, PartialEq, Eq)]
pub struct Executed {
    pub transfers: Vec<Transfer>,
    pub winner: Option<User>,
    pub received_tokens: Option<u128>,
}

/// Funds attached to a message.
#[derive(Debug, Clone, PartialEq, Eq)]
pub struct Coin {
    pub denom: String,
    pub amount: u128,
}

/// Everything the arcade keeps between commands.
#[derive(Debug, Clone, PartialEq, Eq)]
pub struct ArcadeState {
    pub admins: Vec<String>,
    pub arcade: String,
    pub denom: String,
    pub price_peer_game: u128,
    pub max_top_scores: u8,
    pub top_users: Vec<User>,
    pub game_counter: u32,
    pub total_distributed: u128,
}

pub struct ArcadeView {
    pub admins: Seq<Seq<char>>,
    pub arcade: Seq<char>,
    pub denom: Seq<char>,
    pub price: u128,
    pub max_top_scores: u8,
    pub top_users: Seq<UserView>,
    pub game_counter: u32,
    pub total_distributed: u128,
}

pub open spec fn ids(v: Seq<String>) -> Seq<Seq<char>> {
    v.map_values(|a: String| a@)
}

pub open spec fn user_views(v: Seq<User>) -> Seq<UserView> {
    v.map_values(|u: User| u@)
}

impl View for ArcadeState {
    type V = ArcadeView;

    open spec fn view(&self) -> ArcadeView {
        ArcadeView {
            admins: ids(self.admins@),
            arcade: self.arcade@,
            denom: self.denom@,
            price: self.price_peer_game,
            max_top_scores: self.max_top_scores,
            top_users: user_views(self.top_users@),
            game_counter: self.game_counter,
            total_distributed: self.total_distributed,
        }
    }
}

impl ArcadeView {
    /// The leaderboard never holds more entries than its capacity.
    pub open spec fn wf(self) -> bool {
        self.top_users.len() <= self.max_top_scores
    }

    pub open spec fn is_admin(self, who: Seq<char>) -> bool {
        self.admins.contains(who)
    }
}

} // verus!
