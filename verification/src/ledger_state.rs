//! The ledger's state as mathematics: the products with their stock, the
//! sales that lines may belong to, and the lines in the order in which
//! they were created; and what creating and deleting a line do to it.

use vstd::prelude::*;
use crate::error::LedgerError;
use crate::product::Product;
use crate::sale_detail::NewSaleDetail;
use crate::sale_detail::SaleDetail;
use crate::sale_detail::SaleDetailWithProduct;

verus! {

/// What happens when a line asks for more units than the product has.
#[derive(Clone, Copy, Debug, PartialEq, Eq, Structural)]
pub enum StockPolicy {
    /// The line is created and the stock goes below zero.
    AllowNegative,
    /// The line is rejected and nothing changes.
    RejectInsufficient,
}

/// A line together with the name and code of a product.
pub open spec fn joined(line: SaleDetail, product: Product) -> SaleDetailWithProduct {
    SaleDetailWithProduct {
        id: line.id,
        sale_id: line.sale_id,
        product_id: line.product_id,
        product_name: product.name,
        product_code: product.code,
        quantity: line.quantity,
        unit_price: line.unit_price,
        subtotal: line.subtotal,
        discount: line.discount,
        tax_amount: line.tax_amount,
    }
}

/// The mathematical state of a ledger.
pub struct LedgerState {
    /// The products by identifier.
    pub products: Map<i32, Product>,
    /// The identifiers of the sales that exist.
    pub sales: Set<i32>,
    /// The lines that exist, oldest first.
    pub lines: Seq<SaleDetail>,
    /// The identifier given to the line created last, 0 before the first.
    pub last_line_id: i32,
    /// The policy on insufficient stock.
    pub policy: StockPolicy,
}

impl LedgerState {
    /// Every product is filed under its own identifier; every line obeys
    /// the row rules and refers to a sale and a product that exist; line
    /// identifiers grow along the sequence and none exceeds the last one
    /// given out.
    pub open spec fn wf(self) -> bool {
        &&& self.last_line_id >= 0
        &&& forall|k: i32| #[trigger]
            self.products.contains_key(k) ==> self.products[k].id == k
        &&& forall|i: int|
            0 <= i < self.lines.len() ==> {
                &&& 0 < (#[trigger] self.lines[i]).id <= self.last_line_id
                &&& self.lines[i].satisfies_checks()
                &&& self.sales.contains(self.lines[i].sale_id)
                &&& self.products.contains_key(self.lines[i].product_id)
            }
        &&& forall|i: int, j: int|
            0 <= i < j < self.lines.len() ==> self.lines[i].id < self.lines[j].id
    }

    /// The units on hand of a product that exists.
    pub open spec fn stock(self, product_id: i32) -> int
        recommends
            self.products.contains_key(product_id),
    {
        self.products[product_id].stock as int
    }

    /// The result of creating a line from `detail`: the new identifier, or
    /// the reason why nothing is created. A request that breaks a rule is a
    /// `ConstraintViolation`; one that names a sale or a product that does
    /// not exist is a `ReferenceError`; running out of identifiers is a
    /// `StorageError`; asking for more units than are on hand is a
    /// `ConstraintViolation` where the policy rejects it; and a stock that
    /// would no longer fit its field is a `StorageError`.
    pub open spec fn create_outcome(self, detail: NewSaleDetail) -> Result<i32, LedgerError> {
        if !detail.satisfies_checks() {
            Err(LedgerError::ConstraintViolation)
        } else if !self.sales.contains(detail.sale_id) || !self.products.contains_key(
            detail.product_id,
        ) {
            Err(LedgerError::ReferenceError)
        } else if self.last_line_id == i32::MAX {
            Err(LedgerError::StorageError)
        } else if self.policy == StockPolicy::RejectInsufficient && self.stock(detail.product_id)
            < detail.quantity {
            Err(LedgerError::ConstraintViolation)
        } else if self.stock(detail.product_id) - detail.quantity < i32::MIN {
            Err(LedgerError::StorageError)
        } else {
            Ok((self.last_line_id + 1) as i32)
        }
    }

    /// The state after creating a line from `detail`: the line is appended
    /// and its quantity leaves the product's stock, or, on failure,
    /// nothing changes.
    pub open spec fn after_create(self, detail: NewSaleDetail) -> LedgerState {
        match self.create_outcome(detail) {
            Ok(id) => LedgerState {
                products: self.products.insert(
                    detail.product_id,
                    self.products[detail.product_id].with_stock(
                        (self.stock(detail.product_id) - detail.quantity) as i32,
                    ),
                ),
                sales: self.sales,
                lines: self.lines.push(detail.row(id)),
                last_line_id: id,
                policy: self.policy,
            },
            Err(_) => self,
        }
    }

    /// Whether a line with this identifier exists.
    pub open spec fn has_line(self, line_id: i32) -> bool {
        exists|i: int| 0 <= i < self.lines.len() && self.lines[i].id == line_id
    }

    /// Where the line with this identifier stands among the lines.
    pub open spec fn position(self, line_id: i32) -> int
        recommends
            self.has_line(line_id),
    {
        choose|i: int| 0 <= i < self.lines.len() && self.lines[i].id == line_id
    }

    /// The line with this identifier.
    pub open spec fn line(self, line_id: i32) -> SaleDetail
        recommends
            self.has_line(line_id),
    {
        self.lines[self.position(line_id)]
    }

    /// The result of deleting the line with this identifier.
    pub open spec fn delete_outcome(self, line_id: i32) -> Result<(), LedgerError> {
        if !self.has_line(line_id) {
            Err(LedgerError::NotFound)
        } else if self.stock(self.line(line_id).product_id) + self.line(line_id).quantity
            > i32::MAX {
            Err(LedgerError::StorageError)
        } else {
            Ok(())
        }
    }

    /// The state after deleting the line with this identifier: the line is
    /// gone and its quantity is back in the product's stock, or, on
    /// failure, nothing changes.
    pub open spec fn after_delete(self, line_id: i32) -> LedgerState {
        match self.delete_outcome(line_id) {
            Ok(_) => {
                let line = self.line(line_id);
                LedgerState {
                    products: self.products.insert(
                        line.product_id,
                        self.products[line.product_id].with_stock(
                            (self.stock(line.product_id) + line.quantity) as i32,
                        ),
                    ),
                    sales: self.sales,
                    lines: self.lines.remove(self.position(line_id)),
                    last_line_id: self.last_line_id,
                    policy: self.policy,
                }
            },
            Err(_) => self,
        }
    }

    /// The lines of one sale, oldest first.
    pub open spec fn lines_of_sale(self, sale_id: i32) -> Seq<SaleDetail> {
        self.lines.filter(|line: SaleDetail| line.sale_id == sale_id)
    }

    /// The lines of one sale, oldest first, each with the name and code of
    /// its product.
    pub open spec fn joined_lines_of_sale(self, sale_id: i32) -> Seq<SaleDetailWithProduct> {
        self.lines_of_sale(sale_id).map_values(
            |line: SaleDetail| joined(line, self.products[line.product_id]),
        )
    }
}

} // verus!
