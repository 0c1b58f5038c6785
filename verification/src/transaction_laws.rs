//! What holds of every creation and deletion that runs against a
//! transactional store, whichever of its commands fail: what is committed
//! afterwards is either all of the operation or none of it, and without
//! faults it is what the ledger's own operations give.

use vstd::prelude::*;
use crate::error::LedgerError;
use crate::error::StoreFault;
use crate::ledger_state::LedgerState;
use crate::ledger_state::StockPolicy;
use crate::sale_detail::NewSaleDetail;
use crate::store_model::stored_row;
use crate::store_model::TxStore;
use crate::transaction::Command;
use crate::transaction::LineCreation;
use crate::transaction::LineDeletion;
use crate::transaction::Progress;
use crate::transaction::Stage;

verus! {

/// How an operation's result reads as progress.
pub open spec fn created(outcome: Result<i32, LedgerError>) -> Progress {
    match outcome {
        Ok(id) => Progress::Created(id),
        Err(e) => Progress::Failed(e),
    }
}

/// How a deletion's result reads as progress.
pub open spec fn deleted(outcome: Result<(), LedgerError>) -> Progress {
    match outcome {
        Ok(_) => Progress::Deleted,
        Err(e) => Progress::Failed(e),
    }
}

/// Runs a creation against a store: each command is executed with the
/// fault that the schedule holds for it, and the reply is fed back, until
/// the operation is finished or the schedule is used up.
pub open spec fn run_creation(
    store: TxStore,
    m: LineCreation,
    p: Progress,
    faults: Seq<Option<StoreFault>>,
) -> (TxStore, LineCreation, Progress)
    decreases faults.len(),
{
    match p {
        Progress::Run(command) => if faults.len() > 0 {
            let (store2, reply) = store.execute(command, faults.first());
            let (m2, p2) = m.step(reply);
            run_creation(store2, m2, p2, faults.drop_first())
        } else {
            (store, m, p)
        },
        _ => (store, m, p),
    }
}

/// Runs a deletion against a store, as `run_creation` runs a creation.
pub open spec fn run_deletion(
    store: TxStore,
    m: LineDeletion,
    p: Progress,
    faults: Seq<Option<StoreFault>>,
) -> (TxStore, LineDeletion, Progress)
    decreases faults.len(),
{
    match p {
        Progress::Run(command) => if faults.len() > 0 {
            let (store2, reply) = store.execute(command, faults.first());
            let (m2, p2) = m.step(reply);
            run_deletion(store2, m2, p2, faults.drop_first())
        } else {
            (store, m, p)
        },
        _ => (store, m, p),
    }
}

/// Whether a schedule holds no fault at all.
pub open spec fn fault_free(faults: Seq<Option<StoreFault>>) -> bool {
    forall|i: int| 0 <= i < faults.len() ==> faults[i] is None
}

/// The number of commands that an operation may still send.
pub open spec fn steps_left(stage: Stage) -> nat {
    match stage {
        Stage::Begin => 6,
        Stage::Insert => 5,
        Stage::ReadLine => 5,
        Stage::ReadStock => 4,
        Stage::Delete => 4,
        Stage::Adjust => 3,
        Stage::Commit => 2,
        Stage::Rollback => 1,
        Stage::Closed => 0,
    }
}

/// A schedule is free of faults when its first entry is none and the rest
/// is free of faults.
proof fn lemma_fault_free_splits(faults: Seq<Option<StoreFault>>)
    requires
        faults.len() > 0,
    ensures
        fault_free(faults) <==> faults.first() is None && fault_free(faults.drop_first()),
{
    if faults.first() is None && fault_free(faults.drop_first()) {
        assert forall|i: int| 0 <= i < faults.len() implies faults[i] is None by {
            if i > 0 {
                assert(faults[i] == faults.drop_first()[i - 1]);
            }
        }
    }
    if fault_free(faults) {
        assert forall|i: int| 0 <= i < faults.drop_first().len() implies faults.drop_first()[i]
            is None by {
            assert(faults.drop_first()[i] == faults[i + 1]);
        }
    }
}

/// What a creation that started on `s0` keeps true between its steps.
/// `clean` says that no command has been made to fail so far.
spec fn creation_holds(
    s0: LedgerState,
    detail: NewSaleDetail,
    store: TxStore,
    m: LineCreation,
    p: Progress,
    clean: bool,
) -> bool {
    let id = (s0.last_line_id + 1) as i32;
    let row = stored_row(id, detail, m.amounts);
    let insertable = s0.sales.contains(detail.sale_id) && s0.products.contains_key(
        detail.product_id,
    ) && s0.last_line_id < i32::MAX;
    &&& m.detail == detail
    &&& m.policy == s0.policy
    &&& detail.satisfies_checks()
    &&& row == detail.row(id)
    &&& (p is Run <==> m.stage != Stage::Closed)
    &&& store.durable == s0 || (m.stage == Stage::Closed && p is Created)
    &&& match m.stage {
        Stage::Begin => p == Progress::Run(Command::Begin) && store.pending is None,
        Stage::Insert => p == Progress::Run(m.insert_command()) && store.pending == Some(s0),
        Stage::ReadStock => {
            &&& p == Progress::Run(Command::ReadStock { product_id: detail.product_id })
            &&& store.pending == Some(TxStore::with_row(s0, row))
            &&& insertable
            &&& m.line_id == id
            &&& s0.policy == StockPolicy::RejectInsufficient
        },
        Stage::Adjust => {
            &&& p == Progress::Run(m.adjust_command())
            &&& store.pending == Some(TxStore::with_row(s0, row))
            &&& insertable
            &&& m.line_id == id
            &&& s0.policy == StockPolicy::RejectInsufficient ==> s0.stock(detail.product_id)
                >= detail.quantity
        },
        Stage::Commit => {
            &&& p == Progress::Run(Command::Commit)
            &&& store.pending == Some(s0.after_create(detail))
            &&& s0.create_outcome(detail) == Ok::<i32, LedgerError>(m.line_id)
        },
        Stage::Rollback => {
            &&& p == Progress::Run(Command::Rollback)
            &&& m.failure is Some
            &&& clean ==> s0.create_outcome(detail) == Err::<i32, LedgerError>(m.failure->Some_0)
        },
        Stage::Closed => {
            &&& p is Created || p is Failed
            &&& p matches Progress::Created(line_id) ==> {
                &&& s0.create_outcome(detail) == Ok::<i32, LedgerError>(line_id)
                &&& store.durable == s0.after_create(detail)
                &&& store.pending is None
            }
            &&& clean ==> p == created(s0.create_outcome(detail)) && store.pending is None
        },
        _ => false,
    }
}

/// One step of a creation keeps `creation_holds` and uses up a step.
proof fn lemma_creation_step(
    s0: LedgerState,
    detail: NewSaleDetail,
    store: TxStore,
    m: LineCreation,
    command: Command,
    fault: Option<StoreFault>,
    clean: bool,
)
    requires
        s0.wf(),
        creation_holds(s0, detail, store, m, Progress::Run(command), clean),
    ensures
        ({
            let (store2, reply) = store.execute(command, fault);
            let (m2, p2) = m.step(reply);
            &&& creation_holds(s0, detail, store2, m2, p2, clean && fault is None)
            &&& steps_left(m2.stage) < steps_left(m.stage)
        }),
{
    let (store2, reply) = store.execute(command, fault);
    let (m2, p2) = m.step(reply);
    let id = (s0.last_line_id + 1) as i32;
    let row = stored_row(id, detail, m.amounts);
    if m.stage == Stage::Adjust && fault is None {
        let w = TxStore::with_row(s0, row);
        assert(w.products == s0.products);
        if i32::MIN <= s0.stock(detail.product_id) - detail.quantity <= i32::MAX {
            assert(s0.create_outcome(detail) == Ok::<i32, LedgerError>(id));
            assert(TxStore::with_stock(
                w,
                detail.product_id,
                s0.stock(detail.product_id) - detail.quantity,
            ) == s0.after_create(detail));
        }
    }
}

/// A creation that started on `s0` keeps `creation_holds` to the end of
/// the schedule, and is finished when the schedule is long enough.
proof fn lemma_creation_run(
    s0: LedgerState,
    detail: NewSaleDetail,
    store: TxStore,
    m: LineCreation,
    p: Progress,
    faults: Seq<Option<StoreFault>>,
    clean: bool,
)
    requires
        s0.wf(),
        creation_holds(s0, detail, store, m, p, clean),
    ensures
        ({
            let (store2, m2, p2) = run_creation(store, m, p, faults);
            &&& creation_holds(s0, detail, store2, m2, p2, clean && fault_free(faults))
            &&& faults.len() >= steps_left(m.stage) ==> !(p2 is Run)
        }),
    decreases faults.len(),
{
    match p {
        Progress::Run(command) => {
            if faults.len() > 0 {
                let (store2, reply) = store.execute(command, faults.first());
                let (m2, p2) = m.step(reply);
                lemma_creation_step(s0, detail, store, m, command, faults.first(), clean);
                lemma_creation_run(
                    s0,
                    detail,
                    store2,
                    m2,
                    p2,
                    faults.drop_first(),
                    clean && faults.first() is None,
                );
                lemma_fault_free_splits(faults);
            }
        },
        _ => {},
    }
}

/// A creation is all or nothing. Run against a store without an open
/// transaction, with any command made to fail, what is committed
/// afterwards is what was committed before, unless the creation reports
/// success: then it is the state with the line written and its quantity
/// taken out of the stock, and the transaction is closed. With a schedule
/// of six faults or more the creation is finished.
pub proof fn lemma_creation_is_atomic(
    s0: LedgerState,
    detail: NewSaleDetail,
    faults: Seq<Option<StoreFault>>,
)
    requires
        s0.wf(),
    ensures
        ({
            let store = TxStore { durable: s0, pending: None };
            let (m, p) = LineCreation::begin(detail, s0.policy);
            let (store2, m2, p2) = run_creation(store, m, p, faults);
            &&& p2 matches Progress::Created(id) ==> {
                &&& s0.create_outcome(detail) == Ok::<i32, LedgerError>(id)
                &&& store2.durable == s0.after_create(detail)
                &&& store2.pending is None
            }
            &&& !(p2 is Created) ==> store2.durable == s0
            &&& !(p2 is Deleted)
            &&& faults.len() >= 6 ==> !(p2 is Run)
        }),
{
    let store = TxStore { durable: s0, pending: None };
    let (m, p) = LineCreation::begin(detail, s0.policy);
    if detail.satisfies_checks() {
        lemma_creation_run(s0, detail, store, m, p, faults, true);
    }
}

/// Without faults a creation against a store does what the ledger's own
/// creation does: it reports the same result and commits the same state.
pub proof fn lemma_creation_without_faults(
    s0: LedgerState,
    detail: NewSaleDetail,
    faults: Seq<Option<StoreFault>>,
)
    requires
        s0.wf(),
        fault_free(faults),
        faults.len() >= 6,
    ensures
        ({
            let store = TxStore { durable: s0, pending: None };
            let (m, p) = LineCreation::begin(detail, s0.policy);
            let (store2, m2, p2) = run_creation(store, m, p, faults);
            &&& p2 == created(s0.create_outcome(detail))
            &&& store2.durable == s0.after_create(detail)
            &&& store2.pending is None
        }),
{
    let store = TxStore { durable: s0, pending: None };
    let (m, p) = LineCreation::begin(detail, s0.policy);
    if detail.satisfies_checks() {
        lemma_creation_run(s0, detail, store, m, p, faults, true);
    }
}

/// What a deletion that started on `s0` keeps true between its steps.
/// `clean` says that no command has been made to fail so far.
spec fn deletion_holds(
    s0: LedgerState,
    line_id: i32,
    store: TxStore,
    m: LineDeletion,
    p: Progress,
    clean: bool,
) -> bool {
    let read = s0.has_line(line_id) && m.product_id == s0.line(line_id).product_id && m.quantity
        == s0.line(line_id).quantity;
    &&& m.line_id == line_id
    &&& (p is Run <==> m.stage != Stage::Closed)
    &&& store.durable == s0 || (m.stage == Stage::Closed && p is Deleted)
    &&& match m.stage {
        Stage::Begin => p == Progress::Run(Command::Begin) && store.pending is None,
        Stage::ReadLine => {
            &&& p == Progress::Run(Command::ReadLine { line_id })
            &&& store.pending == Some(s0)
        },
        Stage::Delete => {
            &&& p == Progress::Run(Command::DeleteLine { line_id })
            &&& store.pending == Some(s0)
            &&& read
        },
        Stage::Adjust => {
            &&& p == Progress::Run(
                Command::ReturnStock { product_id: m.product_id, quantity: m.quantity },
            )
            &&& store.pending == Some(TxStore::without_line(s0, s0.position(line_id)))
            &&& read
        },
        Stage::Commit => {
            &&& p == Progress::Run(Command::Commit)
            &&& store.pending == Some(s0.after_delete(line_id))
            &&& s0.delete_outcome(line_id) is Ok
        },
        Stage::Rollback => {
            &&& p == Progress::Run(Command::Rollback)
            &&& m.failure is Some
            &&& clean ==> s0.delete_outcome(line_id) == Err::<(), LedgerError>(m.failure->Some_0)
        },
        Stage::Closed => {
            &&& p is Deleted || p is Failed
            &&& p is Deleted ==> {
                &&& s0.delete_outcome(line_id) is Ok
                &&& store.durable == s0.after_delete(line_id)
                &&& store.pending is None
            }
            &&& clean ==> p == deleted(s0.delete_outcome(line_id)) && store.pending is None
        },
        _ => false,
    }
}

/// One step of a deletion keeps `deletion_holds` and uses up a step.
proof fn lemma_deletion_step(
    s0: LedgerState,
    line_id: i32,
    store: TxStore,
    m: LineDeletion,
    command: Command,
    fault: Option<StoreFault>,
    clean: bool,
)
    requires
        s0.wf(),
        deletion_holds(s0, line_id, store, m, Progress::Run(command), clean),
    ensures
        ({
            let (store2, reply) = store.execute(command, fault);
            let (m2, p2) = m.step(reply);
            &&& deletion_holds(s0, line_id, store2, m2, p2, clean && fault is None)
            &&& steps_left(m2.stage) < steps_left(m.stage)
        }),
{
    if m.stage == Stage::Adjust && fault is None {
        let at = s0.position(line_id);
        let w = TxStore::without_line(s0, at);
        let line = s0.lines[at];
        assert(w.products == s0.products);
        assert(s0.products.contains_key(line.product_id));
        assert(line.quantity > 0);
        if s0.stock(line.product_id) + line.quantity <= i32::MAX {
            assert(TxStore::with_stock(
                w,
                line.product_id,
                s0.stock(line.product_id) + line.quantity,
            ) == s0.after_delete(line_id));
        }
    }
}

/// A deletion that started on `s0` keeps `deletion_holds` to the end of
/// the schedule, and is finished when the schedule is long enough.
proof fn lemma_deletion_run(
    s0: LedgerState,
    line_id: i32,
    store: TxStore,
    m: LineDeletion,
    p: Progress,
    faults: Seq<Option<StoreFault>>,
    clean: bool,
)
    requires
        s0.wf(),
        deletion_holds(s0, line_id, store, m, p, clean),
    ensures
        ({
            let (store2, m2, p2) = run_deletion(store, m, p, faults);
            &&& deletion_holds(s0, line_id, store2, m2, p2, clean && fault_free(faults))
            &&& faults.len() >= steps_left(m.stage) ==> !(p2 is Run)
        }),
    decreases faults.len(),
{
    match p {
        Progress::Run(command) => {
            if faults.len() > 0 {
                let (store2, reply) = store.execute(command, faults.first());
                let (m2, p2) = m.step(reply);
                lemma_deletion_step(s0, line_id, store, m, command, faults.first(), clean);
                lemma_deletion_run(
                    s0,
                    line_id,
                    store2,
                    m2,
                    p2,
                    faults.drop_first(),
                    clean && faults.first() is None,
                );
                lemma_fault_free_splits(faults);
            }
        },
        _ => {},
    }
}

/// A deletion is all or nothing. Run against a store without an open
/// transaction, with any command made to fail, what is committed
/// afterwards is what was committed before, unless the deletion reports
/// success: then it is the state with the line removed and the quantity
/// that its row held back in the stock, and the transaction is closed.
/// With a schedule of six faults or more the deletion is finished.
pub proof fn lemma_deletion_is_atomic(
    s0: LedgerState,
    line_id: i32,
    faults: Seq<Option<StoreFault>>,
)
    requires
        s0.wf(),
    ensures
        ({
            let store = TxStore { durable: s0, pending: None };
            let (m, p) = LineDeletion::begin(line_id);
            let (store2, m2, p2) = run_deletion(store, m, p, faults);
            &&& p2 is Deleted ==> {
                &&& s0.delete_outcome(line_id) is Ok
                &&& store2.durable == s0.after_delete(line_id)
                &&& store2.pending is None
            }
            &&& !(p2 is Deleted) ==> store2.durable == s0
            &&& !(p2 is Created)
            &&& faults.len() >= 6 ==> !(p2 is Run)
        }),
{
    let store = TxStore { durable: s0, pending: None };
    let (m, p) = LineDeletion::begin(line_id);
    lemma_deletion_run(s0, line_id, store, m, p, faults, true);
}

/// Without faults a deletion against a store does what the ledger's own
/// deletion does: it reports the same result and commits the same state.
pub proof fn lemma_deletion_without_faults(
    s0: LedgerState,
    line_id: i32,
    faults: Seq<Option<StoreFault>>,
)
    requires
        s0.wf(),
        fault_free(faults),
        faults.len() >= 6,
    ensures
        ({
            let store = TxStore { durable: s0, pending: None };
            let (m, p) = LineDeletion::begin(line_id);
            let (store2, m2, p2) = run_deletion(store, m, p, faults);
            &&& p2 == deleted(s0.delete_outcome(line_id))
            &&& store2.durable == s0.after_delete(line_id)
            &&& store2.pending is None
        }),
{
    let store = TxStore { durable: s0, pending: None };
    let (m, p) = LineDeletion::begin(line_id);
    lemma_deletion_run(s0, line_id, store, m, p, faults, true);
}

} // verus!
