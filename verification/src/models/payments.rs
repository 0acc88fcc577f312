//! Shapes of the payment endpoints.

use vstd::prelude::*;

verus! {

#[derive(PartialEq, Clone, Debug)]
pub struct ReplenishInfo {
    pub address: String,
}

#[derive(PartialEq, Clone, Debug)]
pub struct Withdraw {
    pub address: String,
    pub sum: String,
    pub fee: Option<String>,
    pub pin_code: String,
    pub minimum_confirmations: u8,
}

#[derive(PartialEq, Clone, Debug)]
pub struct WithdrawResponse {
    pub response_message: String,
}

#[derive(PartialEq, Clone, Debug)]
pub enum WithdrawError {
    Fields(WithdrawFieldError),
    Detail(WithdrawDetailError),
}

#[derive(PartialEq, Clone, Debug)]
pub struct WithdrawFieldError {
    pub address: Option<Vec<String>>,
    pub sum: Option<Vec<String>>,
    pub fee: Option<Vec<String>>,
    pub pin_code: Option<Vec<String>>,
    pub minimum_confirmations: Option<Vec<String>>,
    pub non_field_errors: Option<Vec<String>>,
}

#[derive(PartialEq, Clone, Debug)]
pub struct WithdrawDetailError {
    pub detail: String,
}

} // verus!
