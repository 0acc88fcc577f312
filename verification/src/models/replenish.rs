//! Shapes of the replenishment endpoints.

use vstd::prelude::*;
use crate::models::common::Currency;

verus! {

#[derive(PartialEq, Clone, Debug)]
pub struct P2PReplenish {
    pub amount: String,
    pub currency: Currency,
    pub finserver_channel: i32,
    pub bank_card: String,
}

#[derive(PartialEq, Clone, Debug)]
pub struct ReplenishInfo {
    pub address: String,
}

} // verus!
