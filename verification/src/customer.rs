//! Customers.

use vstd::prelude::*;

verus! {

/// A customer as stored.
#[derive(Clone, Debug, PartialEq, Eq)]
pub struct Customer {
    pub id: i32,
    pub name: String,
    pub email: Option<String>,
    pub phone: Option<String>,
    pub address: Option<String>,
    pub rfc: Option<String>,
}

/// The attributes from which a customer is created.
#[derive(Clone, Debug, PartialEq, Eq)]
pub struct NewCustomer {
    pub name: String,
    pub email: Option<String>,
    pub phone: Option<String>,
    pub address: Option<String>,
    pub rfc: Option<String>,
}

impl NewCustomer {
    /// The customer that these attributes describe, under the given
    /// identifier.
    pub open spec fn stored(self, id: i32) -> Customer {
        Customer {
            id,
            name: self.name,
            email: self.email,
            phone: self.phone,
            address: self.address,
            rfc: self.rfc,
        }
    }

    /// Gives the attributes an identifier.
    pub fn with_id(self, id: i32) -> (customer: Customer)
        ensures
            customer == self.stored(id),
    {
        Customer {
            id,
            name: self.name,
            email: self.email,
            phone: self.phone,
            address: self.address,
            rfc: self.rfc,
        }
    }
}

} // verus!
