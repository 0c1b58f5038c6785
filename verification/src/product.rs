//! Products, whose stock the ledger adjusts.

use vstd::prelude::*;

verus! {

/// A product as the product repository holds it. The price is in minor
/// units; the stock is the number of units on hand.
#[derive(Clone, Debug, PartialEq, Eq)]
pub struct Product {
    pub id: i32,
    pub name: String,
    pub code: String,
    pub price: i64,
    pub stock: i32,
}

/// The attributes from which a product is created.
#[derive(Clone, Debug, PartialEq, Eq)]
pub struct NewProduct {
    pub name: String,
    pub code: String,
    pub price: i64,
    pub stock: i32,
}

impl Product {
    /// This product with another stock and everything else as it is.
    pub open spec fn with_stock(self, stock: i32) -> Product {
        Product { id: self.id, name: self.name, code: self.code, price: self.price, stock }
    }

    /// A copy of this product that holds the given stock.
    pub fn restocked(&self, stock: i32) -> (r: Product)
        ensures
            r == self.with_stock(stock),
    {
        Product {
            id: self.id,
            name: self.name.clone(),
            code: self.code.clone(),
            price: self.price,
            stock,
        }
    }
}

impl NewProduct {
    /// The product that these attributes describe, under the given
    /// identifier.
    pub open spec fn stored(self, id: i32) -> Product {
        Product { id, name: self.name, code: self.code, price: self.price, stock: self.stock }
    }

    /// Gives the attributes an identifier.
    pub fn with_id(self, id: i32) -> (r: Product)
        ensures
            r == self.stored(id),
    {
        Product { id, name: self.name, code: self.code, price: self.price, stock: self.stock }
    }
}

} // verus!
