use crate::state::User;
use vstd::prelude::*;

verus! {

#[derive(Debug, Clone, PartialEq, Eq)]
pub struct InstantiateMsg {
    pub arcade: String,
    pub admins: Vec<String>,
    pub max_top_score: u8,
    pub denom: String,
    pub price_peer_game: u128,
}

#[derive(Debug, Clone, PartialEq, Eq)]
pub enum ExecuteMsg {
    AddAdmin { admins: Vec<String> },
    AddTopUser { user: User },
    Leave {},
    Play {},
    UpdatePrice { price: u128 },
}

#[derive(Debug, Clone, Copy, PartialEq, Eq)]
pub enum QueryMsg {
    AdminsList {},
    ScoreList {},
    GameCounter {},
    Price {},
    PrizePool {},
    TotalDistributed {},
}

#[derive(Debug, Clone, Copy, PartialEq, Eq)]
pub enum QueryResp {
    Greet {},
}

#[derive(Debug, Clone, PartialEq, Eq)]
pub struct AdminsListResp {
    pub admins: Vec<String>,
}

#[derive(Debug, Clone, PartialEq, Eq)]
pub struct ScoreboardListResp {
    pub scores: Vec<User>,
}

#[derive(Debug, Clone, Copy, PartialEq, Eq)]
pub struct GameCounterResp {
    pub game_counter: u32,
}

#[derive(Debug, Clone, Copy, PartialEq, Eq)]
pub struct GamePriceResp {
    pub price: u128,
}

#[derive(Debug, Clone, Copy, PartialEq, Eq)]
pub struct PrizePoolResp {
    pub prize_pool: u128,
}

#[derive(Debug, Clone, Copy, PartialEq, Eq)]
pub struct TotalDistributionResp {
    pub total_distributed: u128,
}

} // verus!
