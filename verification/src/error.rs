//! The failures that the ledger reports, and how a fault raised by a
//! relational store is sorted into them.

use vstd::prelude::*;

verus! {

/// Why a ledger operation did not take effect.
#[derive(Clone, Copy, Debug, PartialEq, Eq, Structural)]
pub enum LedgerError {
    /// The input breaks a rule of the domain: a quantity that is not
    /// positive, a negative price or discount, a derived amount that is
    /// negative or too large to store, or stock that the policy protects.
    ConstraintViolation,
    /// The sale or the product that the line refers to does not exist.
    ReferenceError,
    /// The line that was asked for does not exist.
    NotFound,
    /// The store rejected or failed the operation.
    StorageError,
}

/// A fault as a relational store reports it, reduced to plain values.
#[derive(Clone, Copy, Debug, PartialEq, Eq, Structural)]
pub enum StoreFault {
    /// A query that must yield a row yielded none.
    NoRows,
    /// The engine refused a statement and gave its extended result code.
    Engine { extended_code: i32 },
    /// Any other failure: the connection, the file, a conversion.
    Other,
}

/// Primary result code that the engine gives to every constraint failure.
pub const CONSTRAINT_FAMILY: i32 = 19;

/// Extended result code of a foreign-key failure.
pub const FOREIGN_KEY_CODE: i32 = 787;

/// The primary result code inside an extended one: its lowest eight bits.
pub open spec fn primary_code(extended_code: i32) -> int {
    extended_code as int % 256
}

/// The kind of error that a store fault stands for.
pub open spec fn fault_kind(fault: StoreFault) -> LedgerError {
    match fault {
        StoreFault::NoRows => LedgerError::NotFound,
        StoreFault::Engine { extended_code } => if extended_code == FOREIGN_KEY_CODE {
            LedgerError::ReferenceError
        } else if extended_code >= 0 && primary_code(extended_code) == CONSTRAINT_FAMILY {
            LedgerError::ConstraintViolation
        } else {
            LedgerError::StorageError
        },
        StoreFault::Other => LedgerError::StorageError,
    }
}

impl StoreFault {
    /// Sorts the fault into the ledger's error kinds: a missing row is
    /// `NotFound`, a foreign-key failure is `ReferenceError`, every other
    /// constraint failure is `ConstraintViolation`, and the rest is
    /// `StorageError`.
    pub fn classify(&self) -> (kind: LedgerError)
        ensures
            kind == fault_kind(*self),
    {
        match *self {
            StoreFault::NoRows => LedgerError::NotFound,
            StoreFault::Engine { extended_code } => {
                if extended_code == FOREIGN_KEY_CODE {
                    LedgerError::ReferenceError
                } else if extended_code >= 0 && extended_code % 256 == CONSTRAINT_FAMILY {
                    LedgerError::ConstraintViolation
                } else {
                    LedgerError::StorageError
                }
            },
            StoreFault::Other => LedgerError::StorageError,
        }
    }
}

impl LedgerError {
    /// The text of the error's message.
    pub open spec fn message(&self) -> Seq<char> {
        match *self {
            LedgerError::ConstraintViolation => "constraint violation"@,
            LedgerError::ReferenceError => "referenced sale or product does not exist"@,
            LedgerError::NotFound => "sale line not found"@,
            LedgerError::StorageError => "storage error"@,
        }
    }

    /// A descriptive message for the caller of the failed operation.
    pub fn describe(&self) -> (text: String)
        ensures
            text@ == self.message(),
    {
        match *self {
            LedgerError::ConstraintViolation => "constraint violation".to_owned(),
            LedgerError::ReferenceError => "referenced sale or product does not exist".to_owned(),
            LedgerError::NotFound => "sale line not found".to_owned(),
            LedgerError::StorageError => "storage error".to_owned(),
        }
    }
}

} // verus!
