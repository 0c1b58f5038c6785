//! Creating and deleting a line against a store that is reached by
//! commands: which command comes next, and what the operation has come to,
//! decided from the store's replies. Each operation opens a transaction,
//! writes inside it, and commits only when every step has succeeded; after
//! any failure it rolls back and reports the failure.

use vstd::prelude::*;
use crate::error::fault_kind;
use crate::error::LedgerError;
use crate::error::StoreFault;
use crate::ledger_state::StockPolicy;
use crate::sale_detail::LineAmounts;
use crate::sale_detail::NewSaleDetail;

verus! {

/// A request to the store.
#[derive(Clone, Copy, Debug, PartialEq, Eq, Structural)]
pub enum Command {
    /// Open a transaction.
    Begin,
    /// Write a new line with the given attributes and derived amounts.
    InsertLine { detail: NewSaleDetail, amounts: LineAmounts },
    /// Report the units on hand of a product.
    ReadStock { product_id: i32 },
    /// Take this many units out of the stock of a product.
    TakeStock { product_id: i32, quantity: i32 },
    /// Put this many units back into the stock of a product.
    ReturnStock { product_id: i32, quantity: i32 },
    /// Report the product and the quantity of a line.
    ReadLine { line_id: i32 },
    /// Remove a line.
    DeleteLine { line_id: i32 },
    /// Make the transaction's writes permanent.
    Commit,
    /// Discard the transaction's writes.
    Rollback,
}

/// What the store answers to a command.
#[derive(Clone, Copy, Debug, PartialEq, Eq, Structural)]
pub enum Reply {
    /// A transaction was opened, committed or rolled back.
    Done,
    /// A line was written and got this row identifier.
    Inserted { row_id: i64 },
    /// A write changed this many rows.
    Changed { rows: u64 },
    /// The units on hand that were asked for.
    Stock { units: i32 },
    /// The product and the quantity of the line that was asked for.
    Line { product_id: i32, quantity: i32 },
    /// What was asked for does not exist.
    Missing,
    /// The command failed and changed nothing.
    Failed(StoreFault),
}

/// Where an operation stands after a reply.
#[derive(Clone, Copy, Debug, PartialEq, Eq, Structural)]
pub enum Progress {
    /// Send this command and come back with its reply.
    Run(Command),
    /// The line was created under this identifier and is committed.
    Created(i32),
    /// The line was deleted and the deletion is committed.
    Deleted,
    /// The operation failed and nothing of it is committed.
    Failed(LedgerError),
}

/// The command whose reply an operation waits for.
#[derive(Clone, Copy, Debug, PartialEq, Eq, Structural)]
pub enum Stage {
    /// The opening of the transaction.
    Begin,
    /// The writing of the line.
    Insert,
    /// The reading of the units on hand.
    ReadStock,
    /// The reading of the line.
    ReadLine,
    /// The removal of the line.
    Delete,
    /// The taking or returning of stock.
    Adjust,
    /// The commit.
    Commit,
    /// The rollback after a failure.
    Rollback,
    /// None: the operation is finished.
    Closed,
}

/// The error that a creation reports for a fault: a missing row is no
/// outcome of a creation and counts as a storage error.
pub open spec fn create_error(fault: StoreFault) -> LedgerError {
    match fault_kind(fault) {
        LedgerError::NotFound => LedgerError::StorageError,
        kind => kind,
    }
}

/// The error that a deletion reports for a fault: a missing row means that
/// the line is not there, everything else is a storage error.
pub open spec fn delete_error(fault: StoreFault) -> LedgerError {
    match fault_kind(fault) {
        LedgerError::NotFound => LedgerError::NotFound,
        _ => LedgerError::StorageError,
    }
}

/// The error that a creation reports for a reply that is no success of the
/// command it answers.
pub open spec fn create_reply_error(reply: Reply) -> LedgerError {
    match reply {
        Reply::Failed(fault) => create_error(fault),
        _ => LedgerError::StorageError,
    }
}

/// The error that a deletion reports for a reply that is no success of the
/// command it answers.
pub open spec fn delete_reply_error(reply: Reply) -> LedgerError {
    match reply {
        Reply::Failed(fault) => delete_error(fault),
        Reply::Missing => LedgerError::NotFound,
        _ => LedgerError::StorageError,
    }
}

fn error_of_create_reply(reply: Reply) -> (e: LedgerError)
    ensures
        e == create_reply_error(reply),
{
    match reply {
        Reply::Failed(fault) => match fault.classify() {
            LedgerError::NotFound => LedgerError::StorageError,
            kind => kind,
        },
        _ => LedgerError::StorageError,
    }
}

fn error_of_delete_reply(reply: Reply) -> (e: LedgerError)
    ensures
        e == delete_reply_error(reply),
{
    match reply {
        Reply::Failed(fault) => match fault.classify() {
            LedgerError::NotFound => LedgerError::NotFound,
            _ => LedgerError::StorageError,
        },
        Reply::Missing => LedgerError::NotFound,
        _ => LedgerError::StorageError,
    }
}

/// The creation of one line, step by step.
#[derive(Clone, Copy, Debug, PartialEq, Eq, Structural)]
pub struct LineCreation {
    /// The request.
    pub detail: NewSaleDetail,
    /// The amounts derived from the request.
    pub amounts: LineAmounts,
    /// The policy on insufficient stock.
    pub policy: StockPolicy,
    /// The command whose reply is awaited.
    pub stage: Stage,
    /// The identifier of the line, once it is written.
    pub line_id: i32,
    /// The failure to report once the transaction is rolled back.
    pub failure: Option<LedgerError>,
}

impl LineCreation {
    /// What the operation has come to, once it is closed.
    pub open spec fn result(self) -> Progress {
        match self.failure {
            Some(e) => Progress::Failed(e),
            None => Progress::Created(self.line_id),
        }
    }

    /// The command that writes the line.
    pub open spec fn insert_command(self) -> Command {
        Command::InsertLine { detail: self.detail, amounts: self.amounts }
    }

    /// The command that takes the line's quantity out of the stock.
    pub open spec fn adjust_command(self) -> Command {
        Command::TakeStock {
            product_id: self.detail.product_id,
            quantity: self.detail.quantity,
        }
    }

    /// Gives the operation up: the transaction is rolled back, and `error`
    /// is reported after that.
    pub open spec fn abort(self, error: LedgerError) -> (LineCreation, Progress) {
        (
            LineCreation { stage: Stage::Rollback, failure: Some(error), ..self },
            Progress::Run(Command::Rollback),
        )
    }

    /// Moves on to the adjustment of the stock.
    pub open spec fn to_adjust(self) -> (LineCreation, Progress) {
        (LineCreation { stage: Stage::Adjust, ..self }, Progress::Run(self.adjust_command()))
    }

    /// Where a creation starts: a request that breaks a rule fails at once
    /// with `ConstraintViolation` and sends no command; any other opens a
    /// transaction.
    pub open spec fn begin(detail: NewSaleDetail, policy: StockPolicy) -> (LineCreation, Progress) {
        if detail.satisfies_checks() {
            (
                LineCreation {
                    detail,
                    amounts: LineAmounts {
                        subtotal: detail.subtotal() as i64,
                        tax_amount: detail.tax_amount() as i64,
                    },
                    policy,
                    stage: Stage::Begin,
                    line_id: 0,
                    failure: None,
                },
                Progress::Run(Command::Begin),
            )
        } else {
            (
                LineCreation {
                    detail,
                    amounts: LineAmounts { subtotal: 0, tax_amount: 0 },
                    policy,
                    stage: Stage::Closed,
                    line_id: 0,
                    failure: Some(LedgerError::ConstraintViolation),
                },
                Progress::Failed(LedgerError::ConstraintViolation),
            )
        }
    }

    /// The next state and what to do, given the reply to the command that
    /// was sent last.
    ///
    /// The line is written first; where the policy protects the stock, the
    /// units on hand are read and compared next; then the stock is
    /// adjusted, and only then the transaction is committed. A reply that
    /// is no success of its command makes the operation roll back and then
    /// report the failure. A transaction that could not be opened is
    /// reported without a rollback.
    pub open spec fn step(self, reply: Reply) -> (LineCreation, Progress) {
        match self.stage {
            Stage::Begin => match reply {
                Reply::Done => (
                    LineCreation { stage: Stage::Insert, ..self },
                    Progress::Run(self.insert_command()),
                ),
                Reply::Failed(fault) => (
                    LineCreation {
                        stage: Stage::Closed,
                        failure: Some(create_error(fault)),
                        ..self
                    },
                    Progress::Failed(create_error(fault)),
                ),
                _ => self.abort(LedgerError::StorageError),
            },
            Stage::Insert => match reply {
                Reply::Inserted { row_id } => if 0 < row_id <= i32::MAX {
                    let written = LineCreation { line_id: row_id as i32, ..self };
                    if self.policy == StockPolicy::RejectInsufficient {
                        (
                            LineCreation { stage: Stage::ReadStock, ..written },
                            Progress::Run(
                                Command::ReadStock { product_id: self.detail.product_id },
                            ),
                        )
                    } else {
                        written.to_adjust()
                    }
                } else {
                    self.abort(LedgerError::StorageError)
                },
                _ => self.abort(create_reply_error(reply)),
            },
            Stage::ReadStock => match reply {
                Reply::Stock { units } => if units < self.detail.quantity {
                    self.abort(LedgerError::ConstraintViolation)
                } else {
                    self.to_adjust()
                },
                Reply::Missing => self.abort(LedgerError::ReferenceError),
                _ => self.abort(create_reply_error(reply)),
            },
            Stage::Adjust => match reply {
                Reply::Changed { rows } => if rows == 1 {
                    (LineCreation { stage: Stage::Commit, ..self }, Progress::Run(Command::Commit))
                } else if rows == 0 {
                    self.abort(LedgerError::ReferenceError)
                } else {
                    self.abort(LedgerError::StorageError)
                },
                _ => self.abort(create_reply_error(reply)),
            },
            Stage::Commit => match reply {
                Reply::Done => (
                    LineCreation { stage: Stage::Closed, ..self },
                    Progress::Created(self.line_id),
                ),
                _ => self.abort(create_reply_error(reply)),
            },
            _ => (LineCreation { stage: Stage::Closed, ..self }, self.result()),
        }
    }

    /// Starts the creation of a line from `detail` under the given policy.
    pub fn start(detail: NewSaleDetail, policy: StockPolicy) -> (next: (LineCreation, Progress))
        ensures
            next == LineCreation::begin(detail, policy),
    {
        match detail.amounts() {
            Ok(amounts) => (
                LineCreation {
                    detail,
                    amounts,
                    policy,
                    stage: Stage::Begin,
                    line_id: 0,
                    failure: None,
                },
                Progress::Run(Command::Begin),
            ),
            Err(_) => (
                LineCreation {
                    detail,
                    amounts: LineAmounts { subtotal: 0, tax_amount: 0 },
                    policy,
                    stage: Stage::Closed,
                    line_id: 0,
                    failure: Some(LedgerError::ConstraintViolation),
                },
                Progress::Failed(LedgerError::ConstraintViolation),
            ),
        }
    }

    fn give_up(self, error: LedgerError) -> (next: (LineCreation, Progress))
        ensures
            next == self.abort(error),
    {
        (
            LineCreation {
                detail: self.detail,
                amounts: self.amounts,
                policy: self.policy,
                stage: Stage::Rollback,
                line_id: self.line_id,
                failure: Some(error),
            },
            Progress::Run(Command::Rollback),
        )
    }

    fn at(self, stage: Stage) -> (m: LineCreation)
        ensures
            m == (LineCreation { stage, ..self }),
    {
        LineCreation {
            detail: self.detail,
            amounts: self.amounts,
            policy: self.policy,
            stage,
            line_id: self.line_id,
            failure: self.failure,
        }
    }

    fn adjust(self) -> (next: (LineCreation, Progress))
        ensures
            next == self.to_adjust(),
    {
        (
            self.at(Stage::Adjust),
            Progress::Run(
                Command::TakeStock {
                    product_id: self.detail.product_id,
                    quantity: self.detail.quantity,
                },
            ),
        )
    }

    fn outcome(self) -> (p: Progress)
        ensures
            p == self.result(),
    {
        match self.failure {
            Some(e) => Progress::Failed(e),
            None => Progress::Created(self.line_id),
        }
    }

    /// Takes the reply to the command that was sent last and says what
    /// comes next.
    pub fn advance(self, reply: Reply) -> (next: (LineCreation, Progress))
        ensures
            next == self.step(reply),
    {
        match self.stage {
            Stage::Begin => match reply {
                Reply::Done => (
                    self.at(Stage::Insert),
                    Progress::Run(
                        Command::InsertLine { detail: self.detail, amounts: self.amounts },
                    ),
                ),
                Reply::Failed(_) => {
                    let e = error_of_create_reply(reply);
                    (
                        LineCreation {
                            detail: self.detail,
                            amounts: self.amounts,
                            policy: self.policy,
                            stage: Stage::Closed,
                            line_id: self.line_id,
                            failure: Some(e),
                        },
                        Progress::Failed(e),
                    )
                },
                _ => self.give_up(LedgerError::StorageError),
            },
            Stage::Insert => match reply {
                Reply::Inserted { row_id } => {
                    if 0 < row_id && row_id <= i32::MAX as i64 {
                        let written = LineCreation {
                            detail: self.detail,
                            amounts: self.amounts,
                            policy: self.policy,
                            stage: self.stage,
                            line_id: row_id as i32,
                            failure: self.failure,
                        };
                        if self.policy == StockPolicy::RejectInsufficient {
                            (
                                written.at(Stage::ReadStock),
                                Progress::Run(
                                    Command::ReadStock { product_id: self.detail.product_id },
                                ),
                            )
                        } else {
                            written.adjust()
                        }
                    } else {
                        self.give_up(LedgerError::StorageError)
                    }
                },
                _ => self.give_up(error_of_create_reply(reply)),
            },
            Stage::ReadStock => match reply {
                Reply::Stock { units } => {
                    if units < self.detail.quantity {
                        self.give_up(LedgerError::ConstraintViolation)
                    } else {
                        self.adjust()
                    }
                },
                Reply::Missing => self.give_up(LedgerError::ReferenceError),
                _ => self.give_up(error_of_create_reply(reply)),
            },
            Stage::Adjust => match reply {
                Reply::Changed { rows } => {
                    if rows == 1 {
                        (self.at(Stage::Commit), Progress::Run(Command::Commit))
                    } else if rows == 0 {
                        self.give_up(LedgerError::ReferenceError)
                    } else {
                        self.give_up(LedgerError::StorageError)
                    }
                },
                _ => self.give_up(error_of_create_reply(reply)),
            },
            Stage::Commit => match reply {
                Reply::Done => (self.at(Stage::Closed), Progress::Created(self.line_id)),
                _ => self.give_up(error_of_create_reply(reply)),
            },
            _ => (self.at(Stage::Closed), self.outcome()),
        }
    }
}

/// The deletion of one line, step by step.
#[derive(Clone, Copy, Debug, PartialEq, Eq, Structural)]
pub struct LineDeletion {
    /// The identifier of the line to delete.
    pub line_id: i32,
    /// The command whose reply is awaited.
    pub stage: Stage,
    /// The product of the line, once the line is read.
    pub product_id: i32,
    /// The quantity of the line, once the line is read.
    pub quantity: i32,
    /// The failure to report once the transaction is rolled back.
    pub failure: Option<LedgerError>,
}

impl LineDeletion {
    /// What the operation has come to, once it is closed.
    pub open spec fn result(self) -> Progress {
        match self.failure {
            Some(e) => Progress::Failed(e),
            None => Progress::Deleted,
        }
    }

    /// Gives the operation up: the transaction is rolled back, and `error`
    /// is reported after that.
    pub open spec fn abort(self, error: LedgerError) -> (LineDeletion, Progress) {
        (
            LineDeletion { stage: Stage::Rollback, failure: Some(error), ..self },
            Progress::Run(Command::Rollback),
        )
    }

    /// Where a deletion starts: it opens a transaction.
    pub open spec fn begin(line_id: i32) -> (LineDeletion, Progress) {
        (
            LineDeletion { line_id, stage: Stage::Begin, product_id: 0, quantity: 0, failure: None },
            Progress::Run(Command::Begin),
        )
    }

    /// The next state and what to do, given the reply to the command that
    /// was sent last.
    ///
    /// The line's product and quantity are read first, then the line is
    /// removed, then the quantity that was read is returned to the stock,
    /// and only then the transaction is committed. A line that is not
    /// there is `NotFound`. A reply that is no success of its command
    /// makes the operation roll back and then report the failure. A
    /// transaction that could not be opened is reported without a
    /// rollback.
    pub open spec fn step(self, reply: Reply) -> (LineDeletion, Progress) {
        match self.stage {
            Stage::Begin => match reply {
                Reply::Done => (
                    LineDeletion { stage: Stage::ReadLine, ..self },
                    Progress::Run(Command::ReadLine { line_id: self.line_id }),
                ),
                Reply::Failed(_) => (
                    LineDeletion {
                        stage: Stage::Closed,
                        failure: Some(LedgerError::StorageError),
                        ..self
                    },
                    Progress::Failed(LedgerError::StorageError),
                ),
                _ => self.abort(LedgerError::StorageError),
            },
            Stage::ReadLine => match reply {
                Reply::Line { product_id, quantity } => (
                    LineDeletion { stage: Stage::Delete, product_id, quantity, ..self },
                    Progress::Run(Command::DeleteLine { line_id: self.line_id }),
                ),
                _ => self.abort(delete_reply_error(reply)),
            },
            Stage::Delete => match reply {
                Reply::Changed { rows } => if rows == 1 {
                    (
                        LineDeletion { stage: Stage::Adjust, ..self },
                        Progress::Run(
                            Command::ReturnStock {
                                product_id: self.product_id,
                                quantity: self.quantity,
                            },
                        ),
                    )
                } else if rows == 0 {
                    self.abort(LedgerError::NotFound)
                } else {
                    self.abort(LedgerError::StorageError)
                },
                _ => self.abort(LedgerError::StorageError),
            },
            Stage::Adjust => match reply {
                Reply::Changed { rows } => if rows == 1 {
                    (LineDeletion { stage: Stage::Commit, ..self }, Progress::Run(Command::Commit))
                } else {
                    self.abort(LedgerError::StorageError)
                },
                _ => self.abort(LedgerError::StorageError),
            },
            Stage::Commit => match reply {
                Reply::Done => (LineDeletion { stage: Stage::Closed, ..self }, Progress::Deleted),
                _ => self.abort(LedgerError::StorageError),
            },
            _ => (LineDeletion { stage: Stage::Closed, ..self }, self.result()),
        }
    }

    /// Starts the deletion of the line with the given identifier.
    pub fn start(line_id: i32) -> (next: (LineDeletion, Progress))
        ensures
            next == LineDeletion::begin(line_id),
    {
        (
            LineDeletion { line_id, stage: Stage::Begin, product_id: 0, quantity: 0, failure: None },
            Progress::Run(Command::Begin),
        )
    }

    fn give_up(self, error: LedgerError) -> (next: (LineDeletion, Progress))
        ensures
            next == self.abort(error),
    {
        (
            LineDeletion {
                line_id: self.line_id,
                stage: Stage::Rollback,
                product_id: self.product_id,
                quantity: self.quantity,
                failure: Some(error),
            },
            Progress::Run(Command::Rollback),
        )
    }

    fn at(self, stage: Stage) -> (m: LineDeletion)
        ensures
            m == (LineDeletion { stage, ..self }),
    {
        LineDeletion {
            line_id: self.line_id,
            stage,
            product_id: self.product_id,
            quantity: self.quantity,
            failure: self.failure,
        }
    }

    /// Takes the reply to the command that was sent last and says what
    /// comes next.
    pub fn advance(self, reply: Reply) -> (next: (LineDeletion, Progress))
        ensures
            next == self.step(reply),
    {
        match self.stage {
            Stage::Begin => match reply {
                Reply::Done => (
                    self.at(Stage::ReadLine),
                    Progress::Run(Command::ReadLine { line_id: self.line_id }),
                ),
                Reply::Failed(_) => (
                    LineDeletion {
                        line_id: self.line_id,
                        stage: Stage::Closed,
                        product_id: self.product_id,
                        quantity: self.quantity,
                        failure: Some(LedgerError::StorageError),
                    },
                    Progress::Failed(LedgerError::StorageError),
                ),
                _ => self.give_up(LedgerError::StorageError),
            },
            Stage::ReadLine => match reply {
                Reply::Line { product_id, quantity } => (
                    LineDeletion {
                        line_id: self.line_id,
                        stage: Stage::Delete,
                        product_id,
                        quantity,
                        failure: self.failure,
                    },
                    Progress::Run(Command::DeleteLine { line_id: self.line_id }),
                ),
                _ => self.give_up(error_of_delete_reply(reply)),
            },
            Stage::Delete => match reply {
                Reply::Changed { rows } => {
                    if rows == 1 {
                        (
                            self.at(Stage::Adjust),
                            Progress::Run(
                                Command::ReturnStock {
                                    product_id: self.product_id,
                                    quantity: self.quantity,
                                },
                            ),
                        )
                    } else if rows == 0 {
                        self.give_up(LedgerError::NotFound)
                    } else {
                        self.give_up(LedgerError::StorageError)
                    }
                },
                _ => self.give_up(LedgerError::StorageError),
            },
            Stage::Adjust => match reply {
                Reply::Changed { rows } => {
                    if rows == 1 {
                        (self.at(Stage::Commit), Progress::Run(Command::Commit))
                    } else {
                        self.give_up(LedgerError::StorageError)
                    }
                },
                _ => self.give_up(LedgerError::StorageError),
            },
            Stage::Commit => match reply {
                Reply::Done => (self.at(Stage::Closed), Progress::Deleted),
                _ => self.give_up(LedgerError::StorageError),
            },
            _ => {
                let p = match self.failure {
                    Some(e) => Progress::Failed(e),
                    None => Progress::Deleted,
                };
                (self.at(Stage::Closed), p)
            },
        }
    }
}

} // verus!
