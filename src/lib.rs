pub mod error;
pub mod state;
pub mod board;
pub mod utils;
pub mod msg;
pub mod contract;
pub mod theorems;
