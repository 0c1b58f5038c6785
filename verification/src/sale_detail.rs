//! Sale lines: the stored row, the request that creates one, and the
//! amounts derived from a request.

use vstd::prelude::*;
use crate::error::LedgerError;

verus! {

/// One stored line of a sale.
#[derive(Clone, Copy, Debug, PartialEq, Eq, Structural)]
pub struct SaleDetail {
    pub id: i32,
    pub sale_id: i32,
    pub product_id: i32,
    pub quantity: i32,
    pub unit_price: i64,
    pub subtotal: i64,
    pub discount: i64,
    pub tax_amount: i64,
}

/// The attributes from which a line is created. The tax percentage is an
/// input only: its effect is stored as the line's tax amount.
#[derive(Clone, Copy, Debug, PartialEq, Eq, Structural)]
pub struct NewSaleDetail {
    pub sale_id: i32,
    pub product_id: i32,
    pub quantity: i32,
    pub unit_price: i64,
    pub discount: i64,
    pub tax_percentage: i64,
}

/// A stored line together with the name and code of its product.
#[derive(Clone, Debug, PartialEq, Eq)]
pub struct SaleDetailWithProduct {
    pub id: i32,
    pub sale_id: i32,
    pub product_id: i32,
    pub product_name: String,
    pub product_code: String,
    pub quantity: i32,
    pub unit_price: i64,
    pub subtotal: i64,
    pub discount: i64,
    pub tax_amount: i64,
}

/// The two amounts derived from a request.
#[derive(Clone, Copy, Debug, PartialEq, Eq, Structural)]
pub struct LineAmounts {
    pub subtotal: i64,
    pub tax_amount: i64,
}

/// Price times quantity, less the discount.
pub open spec fn line_subtotal(unit_price: int, quantity: int, discount: int) -> int {
    unit_price * quantity - discount
}

/// The given percentage of a subtotal, rounded down to a whole unit.
pub open spec fn line_tax(subtotal: int, tax_percentage: int) -> int {
    subtotal * tax_percentage / 100
}

impl NewSaleDetail {
    /// The subtotal of the line that this request describes.
    pub open spec fn subtotal(&self) -> int {
        line_subtotal(self.unit_price as int, self.quantity as int, self.discount as int)
    }

    /// The tax amount of the line that this request describes.
    pub open spec fn tax_amount(&self) -> int {
        line_tax(self.subtotal(), self.tax_percentage as int)
    }

    /// The rules that a request must meet to be stored: a positive
    /// quantity, no negative price or discount, and derived amounts that
    /// are not negative and fit the stored representation.
    pub open spec fn satisfies_checks(&self) -> bool {
        &&& self.quantity > 0
        &&& self.unit_price >= 0
        &&& self.discount >= 0
        &&& 0 <= self.subtotal() <= i64::MAX
        &&& 0 <= self.tax_amount() <= i64::MAX
    }

    /// The row that stores this request under the given identifier.
    pub open spec fn row(&self, id: i32) -> SaleDetail
        recommends
            self.satisfies_checks(),
    {
        SaleDetail {
            id,
            sale_id: self.sale_id,
            product_id: self.product_id,
            quantity: self.quantity,
            unit_price: self.unit_price,
            subtotal: self.subtotal() as i64,
            discount: self.discount,
            tax_amount: self.tax_amount() as i64,
        }
    }

    /// Derives subtotal and tax amount, or rejects the request with
    /// `ConstraintViolation` when it breaks one of the rules.
    pub fn amounts(&self) -> (r: Result<LineAmounts, LedgerError>)
        ensures
            self.satisfies_checks() ==> r == Ok::<LineAmounts, LedgerError>(
                LineAmounts {
                    subtotal: self.subtotal() as i64,
                    tax_amount: self.tax_amount() as i64,
                },
            ),
            !self.satisfies_checks() ==> r == Err::<LineAmounts, LedgerError>(
                LedgerError::ConstraintViolation,
            ),
    {
        if self.quantity <= 0 || self.unit_price < 0 || self.discount < 0 {
            return Err(LedgerError::ConstraintViolation);
        }
        let price: i128 = self.unit_price as i128;
        let quantity: i128 = self.quantity as i128;
        assert(0 <= price * quantity <= 0x7fff_ffff_ffff_ffff * 0x7fff_ffff) by (nonlinear_arith)
            requires
                0 <= price <= 0x7fff_ffff_ffff_ffff,
                0 < quantity <= 0x7fff_ffff,
        ;
        let gross: i128 = price * quantity;
        let subtotal: i128 = gross - self.discount as i128;
        if subtotal < 0 || subtotal > i64::MAX as i128 {
            return Err(LedgerError::ConstraintViolation);
        }
        let percentage: i128 = self.tax_percentage as i128;
        if percentage < 0 {
            if subtotal > 0 {
                assert(subtotal * percentage < 0) by (nonlinear_arith)
                    requires
                        subtotal > 0,
                        percentage < 0,
                ;
                return Err(LedgerError::ConstraintViolation);
            }
            assert(subtotal * percentage == 0) by (nonlinear_arith)
                requires
                    subtotal == 0,
            ;
            return Ok(LineAmounts { subtotal: 0, tax_amount: 0 });
        }
        assert(0 <= subtotal * percentage <= 0x7fff_ffff_ffff_ffff * 0x7fff_ffff_ffff_ffff)
            by (nonlinear_arith)
            requires
                0 <= subtotal <= 0x7fff_ffff_ffff_ffff,
                0 <= percentage <= 0x7fff_ffff_ffff_ffff,
        ;
        let tax: i128 = subtotal * percentage / 100;
        if tax > i64::MAX as i128 {
            return Err(LedgerError::ConstraintViolation);
        }
        Ok(LineAmounts { subtotal: subtotal as i64, tax_amount: tax as i64 })
    }
}

impl SaleDetail {
    /// The rules that every stored line meets.
    pub open spec fn satisfies_checks(&self) -> bool {
        &&& self.quantity > 0
        &&& self.unit_price >= 0
        &&& self.discount >= 0
        &&& self.subtotal >= 0
        &&& self.tax_amount >= 0
    }
}

} // verus!
