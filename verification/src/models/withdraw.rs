//! Shapes of the withdrawal endpoints that name a channel.

use vstd::prelude::*;

verus! {

#[derive(PartialEq, Clone, Debug)]
pub struct WithdrawData {
    pub address: String,
    pub sum: String,
    pub pin_code: String,
    pub finserver_channel_name: String,
}

/// Why a withdrawal was refused: for what a field holds, or as a whole.
#[derive(PartialEq, Clone, Debug)]
pub enum WithdrawError {
    Fields(WithdrawFieldError),
    Detail(WithdrawDetailError),
}

#[derive(PartialEq, Clone, Debug)]
pub struct WithdrawFieldError {
    pub address: Option<Vec<String>>,
    pub sum: Option<Vec<String>>,
    pub fee: Option<Vec<String>>,
    pub pin_code: Option<Vec<String>>,
    pub minimum_confirmations: Option<Vec<String>>,
    pub non_field_errors: Option<Vec<String>>,
}

#[derive(PartialEq, Clone, Debug)]
pub struct WithdrawDetailError {
    pub detail: String,
}

#[derive(PartialEq, Clone, Debug)]
pub struct WithdrawResponse {
    pub status: String,
}

} // verus!
