//! Shapes of the transfer endpoint.

use vstd::prelude::*;

verus! {

/// What is sent to move funds to another user.
#[derive(PartialEq, Clone, Debug)]
pub struct TransferQuery {
    pub amount: String,
    pub currency: String,
    pub to: String,
    pub pin_code: String,
}

} // verus!
