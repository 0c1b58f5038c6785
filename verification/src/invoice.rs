//! Invoices.

use vstd::prelude::*;
use crate::timestamp::Timestamp;

verus! {

/// An invoice as stored.
#[derive(Clone, Debug, PartialEq, Eq)]
pub struct Invoice {
    pub id: i32,
    pub sale_id: i32,
    pub uuid: String,
    pub date: Timestamp,
    pub file_path: String,
    pub status: String,
}

/// The attributes from which an invoice is created.
#[derive(Clone, Debug, PartialEq, Eq)]
pub struct NewInvoice {
    pub sale_id: i32,
    pub uuid: String,
    pub file_path: String,
    pub status: Option<String>,
}

/// The status of an invoice that was created without one.
pub const DEFAULT_INVOICE_STATUS: &'static str = "active";

impl NewInvoice {
    /// The status under which the invoice is stored: the one given, or
    /// `active` when none is given.
    pub open spec fn stored_status(self) -> Seq<char> {
        match self.status {
            Some(status) => status@,
            None => DEFAULT_INVOICE_STATUS@,
        }
    }

    /// The status under which the invoice is stored.
    pub fn status_or_default(&self) -> (status: String)
        ensures
            status@ == self.stored_status(),
    {
        match &self.status {
            Some(status) => status.clone(),
            None => DEFAULT_INVOICE_STATUS.to_owned(),
        }
    }
}

} // verus!
