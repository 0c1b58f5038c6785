//! Sales.

use vstd::prelude::*;
use crate::timestamp::Timestamp;

verus! {

/// A sale as stored. Amounts are in minor units.
#[derive(Clone, Debug, PartialEq, Eq)]
pub struct Sale {
    pub id: i32,
    pub date: Timestamp,
    pub customer_id: Option<i32>,
    pub subtotal: i64,
    pub taxes: i64,
    pub total: i64,
    pub payment_method: String,
    pub status: String,
}

/// The attributes from which a sale is created.
#[derive(Clone, Debug, PartialEq, Eq)]
pub struct NewSale {
    pub customer_id: Option<i32>,
    pub subtotal: i64,
    pub taxes: i64,
    pub total: i64,
    pub payment_method: String,
    pub status: Option<String>,
}

/// The status of a sale that was created without one.
pub const DEFAULT_SALE_STATUS: &'static str = "completed";

impl NewSale {
    /// The status under which the sale is stored: the one given, or
    /// `completed` when none is given.
    pub open spec fn stored_status(self) -> Seq<char> {
        match self.status {
            Some(status) => status@,
            None => DEFAULT_SALE_STATUS@,
        }
    }

    /// The status under which the sale is stored.
    pub fn status_or_default(&self) -> (status: String)
        ensures
            status@ == self.stored_status(),
    {
        match &self.status {
            Some(status) => status.clone(),
            None => DEFAULT_SALE_STATUS.to_owned(),
        }
    }
}

} // verus!
