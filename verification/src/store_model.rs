//! A transactional store as mathematics: what each command does to the
//! ledger's state and what is replied. It is the store that the laws on
//! transactions speak of.

use vstd::prelude::*;
use crate::error::StoreFault;
use crate::ledger_state::LedgerState;
use crate::sale_detail::LineAmounts;
use crate::sale_detail::NewSaleDetail;
use crate::sale_detail::SaleDetail;
use crate::transaction::Command;
use crate::transaction::Reply;

verus! {

/// Extended result code with which the model refuses a row that breaks a
/// check.
pub const CHECK_CODE: i32 = 275;

/// Extended result code with which the model refuses a row that refers to
/// a sale or a product that does not exist.
pub const MISSING_REFERENCE_CODE: i32 = 787;

/// Result code with which the model refuses a row when the identifiers
/// are used up.
pub const FULL_CODE: i32 = 13;

/// The row that a store writes for a request and its amounts.
pub open spec fn stored_row(id: i32, detail: NewSaleDetail, amounts: LineAmounts) -> SaleDetail {
    SaleDetail {
        id,
        sale_id: detail.sale_id,
        product_id: detail.product_id,
        quantity: detail.quantity,
        unit_price: detail.unit_price,
        subtotal: amounts.subtotal,
        discount: detail.discount,
        tax_amount: amounts.tax_amount,
    }
}

/// A store with transactions: the state that is committed, and the state
/// that an open transaction works on.
pub struct TxStore {
    /// What is committed.
    pub durable: LedgerState,
    /// What the open transaction has made of it, if one is open.
    pub pending: Option<LedgerState>,
}

impl TxStore {
    /// The state that reads see and writes change.
    pub open spec fn current(self) -> LedgerState {
        match self.pending {
            Some(working) => working,
            None => self.durable,
        }
    }

    /// The store after a write: inside a transaction the write is pending,
    /// outside it is committed at once.
    pub open spec fn written(self, next: LedgerState) -> TxStore {
        match self.pending {
            Some(_) => TxStore { durable: self.durable, pending: Some(next) },
            None => TxStore { durable: next, pending: None },
        }
    }

    /// The state after a line is written.
    pub open spec fn with_row(s: LedgerState, row: SaleDetail) -> LedgerState {
        LedgerState {
            products: s.products,
            sales: s.sales,
            lines: s.lines.push(row),
            last_line_id: row.id,
            policy: s.policy,
        }
    }

    /// The state after the stock of a product is set.
    pub open spec fn with_stock(s: LedgerState, product_id: i32, units: int) -> LedgerState {
        LedgerState {
            products: s.products.insert(
                product_id,
                s.products[product_id].with_stock(units as i32),
            ),
            sales: s.sales,
            lines: s.lines,
            last_line_id: s.last_line_id,
            policy: s.policy,
        }
    }

    /// The state after the line at a position is removed.
    pub open spec fn without_line(s: LedgerState, position: int) -> LedgerState {
        LedgerState {
            products: s.products,
            sales: s.sales,
            lines: s.lines.remove(position),
            last_line_id: s.last_line_id,
            policy: s.policy,
        }
    }

    /// What a command does when it is not made to fail.
    pub open spec fn perform(self, command: Command) -> (TxStore, Reply) {
        let s = self.current();
        match command {
            Command::Begin => match self.pending {
                None => (TxStore { durable: self.durable, pending: Some(self.durable) }, Reply::Done),
                Some(_) => (self, Reply::Failed(StoreFault::Other)),
            },
            Command::Commit => match self.pending {
                Some(working) => (TxStore { durable: working, pending: None }, Reply::Done),
                None => (self, Reply::Failed(StoreFault::Other)),
            },
            Command::Rollback => (TxStore { durable: self.durable, pending: None }, Reply::Done),
            Command::InsertLine { detail, amounts } => {
                let row = stored_row((s.last_line_id + 1) as i32, detail, amounts);
                if !row.satisfies_checks() {
                    (self, Reply::Failed(StoreFault::Engine { extended_code: CHECK_CODE }))
                } else if !s.sales.contains(detail.sale_id) || !s.products.contains_key(
                    detail.product_id,
                ) {
                    (
                        self,
                        Reply::Failed(StoreFault::Engine { extended_code: MISSING_REFERENCE_CODE }),
                    )
                } else if s.last_line_id == i32::MAX {
                    (self, Reply::Failed(StoreFault::Engine { extended_code: FULL_CODE }))
                } else {
                    (
                        self.written(TxStore::with_row(s, row)),
                        Reply::Inserted { row_id: row.id as i64 },
                    )
                }
            },
            Command::ReadStock { product_id } => if s.products.contains_key(product_id) {
                (self, Reply::Stock { units: s.products[product_id].stock })
            } else {
                (self, Reply::Missing)
            },
            Command::TakeStock { product_id, quantity } => if !s.products.contains_key(
                product_id,
            ) {
                (self, Reply::Changed { rows: 0 })
            } else if !(i32::MIN <= s.stock(product_id) - quantity <= i32::MAX) {
                (self, Reply::Failed(StoreFault::Other))
            } else {
                (
                    self.written(
                        TxStore::with_stock(s, product_id, s.stock(product_id) - quantity),
                    ),
                    Reply::Changed { rows: 1 },
                )
            },
            Command::ReturnStock { product_id, quantity } => if !s.products.contains_key(
                product_id,
            ) {
                (self, Reply::Changed { rows: 0 })
            } else if !(i32::MIN <= s.stock(product_id) + quantity <= i32::MAX) {
                (self, Reply::Failed(StoreFault::Other))
            } else {
                (
                    self.written(
                        TxStore::with_stock(s, product_id, s.stock(product_id) + quantity),
                    ),
                    Reply::Changed { rows: 1 },
                )
            },
            Command::ReadLine { line_id } => if s.has_line(line_id) {
                (
                    self,
                    Reply::Line {
                        product_id: s.line(line_id).product_id,
                        quantity: s.line(line_id).quantity,
                    },
                )
            } else {
                (self, Reply::Missing)
            },
            Command::DeleteLine { line_id } => if s.has_line(line_id) {
                (
                    self.written(TxStore::without_line(s, s.position(line_id))),
                    Reply::Changed { rows: 1 },
                )
            } else {
                (self, Reply::Changed { rows: 0 })
            },
        }
    }

    /// What a command does: with a fault, it changes nothing and the fault
    /// is the reply; without, it is performed.
    pub open spec fn execute(self, command: Command, fault: Option<StoreFault>) -> (TxStore, Reply) {
        match fault {
            Some(f) => (self, Reply::Failed(f)),
            None => self.perform(command),
        }
    }
}

} // verus!
