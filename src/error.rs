use crate::state::Transfer;
use vstd::prelude::*;

verus! {

/// Why the attached funds were not accepted as a payment.
#[derive(Debug, Clone, PartialEq, Eq)]
pub enum PaymentFault {
    MissingDenom(String),
    ExtraDenom(String),
    MultipleDenoms,
    NoFunds,
    NonPayable,
}

#[derive(Debug, Clone, PartialEq, Eq)]
pub enum ContractError {
    /// The caller is not an administrator.
    Unauthorized { sender: String },
    /// The payment is below the price of a game; `refund` returns it in full.
    InsufficientPayment { refund: Transfer },
    /// The host rejected an account identifier.
    InvalidAddress { reason: String },
    /// The attached funds are not a single non-zero coin of the arcade's denomination.
    Payment { fault: PaymentFault },
}

} // verus!
