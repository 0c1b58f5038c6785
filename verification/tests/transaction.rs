use salesys::error::{LedgerError, StoreFault};
use salesys::ledger_state::StockPolicy;
use salesys::sale_detail::{LineAmounts, NewSaleDetail};
use salesys::transaction::{Command, LineCreation, LineDeletion, Progress, Reply, Stage};

fn order() -> NewSaleDetail {
    NewSaleDetail {
        sale_id: 1,
        product_id: 5,
        quantity: 3,
        unit_price: 1000,
        discount: 200,
        tax_percentage: 16,
    }
}

fn insert_of_order() -> Command {
    Command::InsertLine {
        detail: order(),
        amounts: LineAmounts { subtotal: 2800, tax_amount: 448 },
    }
}

fn busy() -> Reply {
    Reply::Failed(StoreFault::Engine { extended_code: 5 })
}

#[test]
fn creation_runs_begin_insert_take_commit() {
    let (m, p) = LineCreation::start(order(), StockPolicy::AllowNegative);
    assert_eq!(p, Progress::Run(Command::Begin));
    let (m, p) = m.advance(Reply::Done);
    assert_eq!(p, Progress::Run(insert_of_order()));
    let (m, p) = m.advance(Reply::Inserted { row_id: 41 });
    assert_eq!(p, Progress::Run(Command::TakeStock { product_id: 5, quantity: 3 }));
    let (m, p) = m.advance(Reply::Changed { rows: 1 });
    assert_eq!(p, Progress::Run(Command::Commit));
    let (m, p) = m.advance(Reply::Done);
    assert_eq!(p, Progress::Created(41));
    assert_eq!(m.stage, Stage::Closed);
    assert_eq!(m.line_id, 41);
}

#[test]
fn creation_reads_the_stock_where_the_policy_protects_it() {
    let (m, _) = LineCreation::start(order(), StockPolicy::RejectInsufficient);
    let (m, _) = m.advance(Reply::Done);
    let (m, p) = m.advance(Reply::Inserted { row_id: 8 });
    assert_eq!(p, Progress::Run(Command::ReadStock { product_id: 5 }));
    let (m, p) = m.advance(Reply::Stock { units: 3 });
    assert_eq!(p, Progress::Run(Command::TakeStock { product_id: 5, quantity: 3 }));
    let (m, p) = m.advance(Reply::Changed { rows: 1 });
    assert_eq!(p, Progress::Run(Command::Commit));
    let (_, p) = m.advance(Reply::Done);
    assert_eq!(p, Progress::Created(8));
}

#[test]
fn creation_rolls_back_when_stock_is_short() {
    let (m, _) = LineCreation::start(order(), StockPolicy::RejectInsufficient);
    let (m, _) = m.advance(Reply::Done);
    let (m, _) = m.advance(Reply::Inserted { row_id: 8 });
    let (m, p) = m.advance(Reply::Stock { units: 2 });
    assert_eq!(p, Progress::Run(Command::Rollback));
    let (_, p) = m.advance(Reply::Done);
    assert_eq!(p, Progress::Failed(LedgerError::ConstraintViolation));
}

#[test]
fn creation_with_a_broken_rule_sends_no_command() {
    let request = NewSaleDetail { quantity: 0, ..order() };
    let (m, p) = LineCreation::start(request, StockPolicy::AllowNegative);
    assert_eq!(p, Progress::Failed(LedgerError::ConstraintViolation));
    assert_eq!(m.stage, Stage::Closed);
    let (_, again) = m.advance(Reply::Done);
    assert_eq!(again, Progress::Failed(LedgerError::ConstraintViolation));
}

#[test]
fn failed_begin_is_reported_without_rollback() {
    let (m, _) = LineCreation::start(order(), StockPolicy::AllowNegative);
    let (m, p) = m.advance(busy());
    assert_eq!(p, Progress::Failed(LedgerError::StorageError));
    assert_eq!(m.stage, Stage::Closed);
}

#[test]
fn failed_stock_update_after_the_row_write_rolls_back() {
    let (m, _) = LineCreation::start(order(), StockPolicy::AllowNegative);
    let (m, _) = m.advance(Reply::Done);
    let (m, _) = m.advance(Reply::Inserted { row_id: 41 });
    let (m, p) = m.advance(busy());
    assert_eq!(p, Progress::Run(Command::Rollback));
    let (_, p) = m.advance(Reply::Done);
    assert_eq!(p, Progress::Failed(LedgerError::StorageError));
}

#[test]
fn failed_row_write_skips_the_stock_update() {
    let (m, _) = LineCreation::start(order(), StockPolicy::AllowNegative);
    let (m, _) = m.advance(Reply::Done);
    let (m, p) = m.advance(Reply::Failed(StoreFault::Engine { extended_code: 787 }));
    assert_eq!(p, Progress::Run(Command::Rollback));
    let (_, p) = m.advance(Reply::Done);
    assert_eq!(p, Progress::Failed(LedgerError::ReferenceError));
}

#[test]
fn check_failure_of_the_store_is_a_constraint_violation() {
    let (m, _) = LineCreation::start(order(), StockPolicy::AllowNegative);
    let (m, _) = m.advance(Reply::Done);
    let (m, _) = m.advance(Reply::Failed(StoreFault::Engine { extended_code: 275 }));
    let (_, p) = m.advance(Reply::Done);
    assert_eq!(p, Progress::Failed(LedgerError::ConstraintViolation));
}

#[test]
fn stock_update_that_finds_no_product_is_a_reference_error() {
    let (m, _) = LineCreation::start(order(), StockPolicy::AllowNegative);
    let (m, _) = m.advance(Reply::Done);
    let (m, _) = m.advance(Reply::Inserted { row_id: 41 });
    let (m, p) = m.advance(Reply::Changed { rows: 0 });
    assert_eq!(p, Progress::Run(Command::Rollback));
    let (_, p) = m.advance(Reply::Done);
    assert_eq!(p, Progress::Failed(LedgerError::ReferenceError));
}

#[test]
fn failed_commit_rolls_back() {
    let (m, _) = LineCreation::start(order(), StockPolicy::AllowNegative);
    let (m, _) = m.advance(Reply::Done);
    let (m, _) = m.advance(Reply::Inserted { row_id: 41 });
    let (m, _) = m.advance(Reply::Changed { rows: 1 });
    let (m, p) = m.advance(busy());
    assert_eq!(p, Progress::Run(Command::Rollback));
    let (_, p) = m.advance(Reply::Done);
    assert_eq!(p, Progress::Failed(LedgerError::StorageError));
}

#[test]
fn failure_is_reported_even_when_the_rollback_fails() {
    let (m, _) = LineCreation::start(order(), StockPolicy::AllowNegative);
    let (m, _) = m.advance(Reply::Done);
    let (m, _) = m.advance(Reply::Failed(StoreFault::Engine { extended_code: 787 }));
    let (m, p) = m.advance(busy());
    assert_eq!(p, Progress::Failed(LedgerError::ReferenceError));
    assert_eq!(m.stage, Stage::Closed);
}

#[test]
fn row_identifier_out_of_range_rolls_back() {
    for row_id in [0, -1, i32::MAX as i64 + 1, i64::MAX] {
        let (m, _) = LineCreation::start(order(), StockPolicy::AllowNegative);
        let (m, _) = m.advance(Reply::Done);
        let (m, p) = m.advance(Reply::Inserted { row_id });
        assert_eq!(p, Progress::Run(Command::Rollback));
        let (_, p) = m.advance(Reply::Done);
        assert_eq!(p, Progress::Failed(LedgerError::StorageError));
    }
}

#[test]
fn reply_that_does_not_answer_the_command_rolls_back() {
    let (m, _) = LineCreation::start(order(), StockPolicy::AllowNegative);
    let (m, p) = m.advance(Reply::Missing);
    assert_eq!(p, Progress::Run(Command::Rollback));
    let (_, p) = m.advance(Reply::Done);
    assert_eq!(p, Progress::Failed(LedgerError::StorageError));
}

#[test]
fn deletion_runs_begin_read_delete_return_commit() {
    let (m, p) = LineDeletion::start(41);
    assert_eq!(p, Progress::Run(Command::Begin));
    let (m, p) = m.advance(Reply::Done);
    assert_eq!(p, Progress::Run(Command::ReadLine { line_id: 41 }));
    let (m, p) = m.advance(Reply::Line { product_id: 5, quantity: 3 });
    assert_eq!(p, Progress::Run(Command::DeleteLine { line_id: 41 }));
    let (m, p) = m.advance(Reply::Changed { rows: 1 });
    assert_eq!(p, Progress::Run(Command::ReturnStock { product_id: 5, quantity: 3 }));
    let (m, p) = m.advance(Reply::Changed { rows: 1 });
    assert_eq!(p, Progress::Run(Command::Commit));
    let (m, p) = m.advance(Reply::Done);
    assert_eq!(p, Progress::Deleted);
    assert_eq!(m.stage, Stage::Closed);
}

#[test]
fn deletion_of_a_missing_line_is_not_found() {
    let (m, _) = LineDeletion::start(9999);
    let (m, _) = m.advance(Reply::Done);
    let (m, p) = m.advance(Reply::Missing);
    assert_eq!(p, Progress::Run(Command::Rollback));
    let (_, p) = m.advance(Reply::Done);
    assert_eq!(p, Progress::Failed(LedgerError::NotFound));
}

#[test]
fn deletion_reads_no_rows_as_not_found() {
    let (m, _) = LineDeletion::start(9999);
    let (m, _) = m.advance(Reply::Done);
    let (m, _) = m.advance(Reply::Failed(StoreFault::NoRows));
    let (_, p) = m.advance(Reply::Done);
    assert_eq!(p, Progress::Failed(LedgerError::NotFound));
}

#[test]
fn failed_stock_return_after_the_row_delete_rolls_back() {
    let (m, _) = LineDeletion::start(41);
    let (m, _) = m.advance(Reply::Done);
    let (m, _) = m.advance(Reply::Line { product_id: 5, quantity: 3 });
    let (m, _) = m.advance(Reply::Changed { rows: 1 });
    let (m, p) = m.advance(busy());
    assert_eq!(p, Progress::Run(Command::Rollback));
    let (_, p) = m.advance(Reply::Done);
    assert_eq!(p, Progress::Failed(LedgerError::StorageError));
}

#[test]
fn failed_row_delete_skips_the_stock_return() {
    let (m, _) = LineDeletion::start(41);
    let (m, _) = m.advance(Reply::Done);
    let (m, _) = m.advance(Reply::Line { product_id: 5, quantity: 3 });
    let (m, p) = m.advance(busy());
    assert_eq!(p, Progress::Run(Command::Rollback));
    let (_, p) = m.advance(Reply::Done);
    assert_eq!(p, Progress::Failed(LedgerError::StorageError));
}

#[test]
fn row_delete_that_changes_nothing_is_not_found() {
    let (m, _) = LineDeletion::start(41);
    let (m, _) = m.advance(Reply::Done);
    let (m, _) = m.advance(Reply::Line { product_id: 5, quantity: 3 });
    let (m, p) = m.advance(Reply::Changed { rows: 0 });
    assert_eq!(p, Progress::Run(Command::Rollback));
    let (_, p) = m.advance(Reply::Done);
    assert_eq!(p, Progress::Failed(LedgerError::NotFound));
}

#[test]
fn stock_return_that_finds_no_product_rolls_back() {
    let (m, _) = LineDeletion::start(41);
    let (m, _) = m.advance(Reply::Done);
    let (m, _) = m.advance(Reply::Line { product_id: 5, quantity: 3 });
    let (m, _) = m.advance(Reply::Changed { rows: 1 });
    let (m, p) = m.advance(Reply::Changed { rows: 0 });
    assert_eq!(p, Progress::Run(Command::Rollback));
    let (_, p) = m.advance(Reply::Done);
    assert_eq!(p, Progress::Failed(LedgerError::StorageError));
}

#[test]
fn deletion_returns_the_quantity_that_the_row_holds() {
    let (m, _) = LineDeletion::start(41);
    let (m, _) = m.advance(Reply::Done);
    let (m, _) = m.advance(Reply::Line { product_id: 12, quantity: 250 });
    let (_, p) = m.advance(Reply::Changed { rows: 1 });
    assert_eq!(p, Progress::Run(Command::ReturnStock { product_id: 12, quantity: 250 }));
}

#[test]
fn failed_begin_of_a_deletion_is_a_storage_error() {
    let (m, _) = LineDeletion::start(41);
    let (m, p) = m.advance(Reply::Failed(StoreFault::Other));
    assert_eq!(p, Progress::Failed(LedgerError::StorageError));
    assert_eq!(m.stage, Stage::Closed);
}

#[test]
fn closed_operation_repeats_its_result() {
    let (m, _) = LineDeletion::start(41);
    let (m, _) = m.advance(Reply::Done);
    let (m, _) = m.advance(Reply::Missing);
    let (m, first) = m.advance(Reply::Done);
    let (_, second) = m.advance(Reply::Done);
    assert_eq!(first, second);
}
