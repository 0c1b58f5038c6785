//! What holds of every ledger: the state stays well formed, a failed
//! operation changes nothing, a created line reads back as it was
//! computed, and stock and lines stay in balance whatever is created and
//! deleted.

use vstd::prelude::*;
use crate::error::LedgerError;
use crate::ledger_state::LedgerState;
use crate::sale_detail::NewSaleDetail;
use crate::sale_detail::SaleDetail;

verus! {

/// One operation on the lines of a ledger.
pub enum LedgerOp {
    /// Create a line from the given attributes.
    Create(NewSaleDetail),
    /// Delete the line with the given identifier.
    Delete(i32),
}

/// The units of a product that the given lines hold.
pub open spec fn committed_units(lines: Seq<SaleDetail>, product_id: i32) -> int
    decreases lines.len(),
{
    if lines.len() == 0 {
        0
    } else {
        committed_units(lines.drop_last(), product_id) + units_of(lines.last(), product_id)
    }
}

/// The units of a product that one line holds: its quantity if it is a
/// line of that product, else none.
pub open spec fn units_of(line: SaleDetail, product_id: i32) -> int {
    if line.product_id == product_id {
        line.quantity as int
    } else {
        0
    }
}

/// The state after one operation, whether it succeeds or fails.
pub open spec fn apply(s: LedgerState, op: LedgerOp) -> LedgerState {
    match op {
        LedgerOp::Create(detail) => s.after_create(detail),
        LedgerOp::Delete(line_id) => s.after_delete(line_id),
    }
}

/// The state after a sequence of operations, first to last.
pub open spec fn apply_all(s: LedgerState, ops: Seq<LedgerOp>) -> LedgerState
    decreases ops.len(),
{
    if ops.len() == 0 {
        s
    } else {
        apply(apply_all(s, ops.drop_last()), ops.last())
    }
}

/// Appending a line adds its units.
pub proof fn lemma_committed_push(lines: Seq<SaleDetail>, line: SaleDetail, product_id: i32)
    ensures
        committed_units(lines.push(line), product_id) == committed_units(lines, product_id)
            + units_of(line, product_id),
{
    assert(lines.push(line).drop_last() =~= lines);
}

/// Removing a line takes its units away.
pub proof fn lemma_committed_remove(lines: Seq<SaleDetail>, i: int, product_id: i32)
    requires
        0 <= i < lines.len(),
    ensures
        committed_units(lines.remove(i), product_id) == committed_units(lines, product_id)
            - units_of(lines[i], product_id),
    decreases lines.len(),
{
    if i == lines.len() - 1 {
        assert(lines.remove(i) =~= lines.drop_last());
    } else {
        lemma_committed_remove(lines.drop_last(), i, product_id);
        assert(lines.remove(i).drop_last() =~= lines.drop_last().remove(i));
        assert(lines.remove(i).last() == lines.last());
    }
}

/// In a well-formed state a line identifier stands at one position only.
pub proof fn lemma_position_is_unique(s: LedgerState, line_id: i32, i: int)
    requires
        s.wf(),
        0 <= i < s.lines.len(),
        s.lines[i].id == line_id,
    ensures
        s.has_line(line_id),
        s.position(line_id) == i,
        s.line(line_id) == s.lines[i],
{
    let j = s.position(line_id);
    if j < i {
        assert(s.lines[j].id < s.lines[i].id);
    } else if i < j {
        assert(s.lines[i].id < s.lines[j].id);
    }
}

/// Creating a line keeps the state well formed, and so does a creation
/// that fails.
pub proof fn lemma_create_keeps_wf(s: LedgerState, detail: NewSaleDetail)
    requires
        s.wf(),
    ensures
        s.after_create(detail).wf(),
        s.after_create(detail).products.dom() == s.products.dom(),
{
    let t = s.after_create(detail);
    if s.create_outcome(detail) is Ok {
        let id = s.create_outcome(detail)->Ok_0;
        assert(t.products.dom() =~= s.products.dom());
        assert forall|i: int| 0 <= i < t.lines.len() implies {
            &&& 0 < (#[trigger] t.lines[i]).id <= t.last_line_id
            &&& t.lines[i].satisfies_checks()
            &&& t.sales.contains(t.lines[i].sale_id)
            &&& t.products.contains_key(t.lines[i].product_id)
        } by {
            if i < s.lines.len() {
                assert(t.lines[i] == s.lines[i]);
            }
        }
        assert forall|i: int, j: int| 0 <= i < j < t.lines.len() implies t.lines[i].id
            < t.lines[j].id by {
            assert(t.lines[i] == s.lines[i]);
            if j < s.lines.len() {
                assert(t.lines[j] == s.lines[j]);
            }
        }
    }
}

/// Deleting a line keeps the state well formed, and so does a deletion
/// that fails.
pub proof fn lemma_delete_keeps_wf(s: LedgerState, line_id: i32)
    requires
        s.wf(),
    ensures
        s.after_delete(line_id).wf(),
        s.after_delete(line_id).products.dom() == s.products.dom(),
{
    let t = s.after_delete(line_id);
    if s.delete_outcome(line_id) is Ok {
        let p = s.position(line_id);
        assert(t.products.dom() =~= s.products.dom());
        assert forall|i: int| 0 <= i < t.lines.len() implies {
            &&& 0 < (#[trigger] t.lines[i]).id <= t.last_line_id
            &&& t.lines[i].satisfies_checks()
            &&& t.sales.contains(t.lines[i].sale_id)
            &&& t.products.contains_key(t.lines[i].product_id)
        } by {
            if i < p {
                assert(t.lines[i] == s.lines[i]);
            } else {
                assert(t.lines[i] == s.lines[i + 1]);
            }
        }
        assert forall|i: int, j: int| 0 <= i < j < t.lines.len() implies t.lines[i].id
            < t.lines[j].id by {
            let a = if i < p { i } else { i + 1 };
            let b = if j < p { j } else { j + 1 };
            assert(t.lines[i] == s.lines[a]);
            assert(t.lines[j] == s.lines[b]);
        }
    }
}

/// A failed operation changes nothing: no row is written or removed and
/// no stock moves.
pub proof fn lemma_failure_changes_nothing(s: LedgerState, op: LedgerOp)
    ensures
        (op matches LedgerOp::Create(detail) && s.create_outcome(detail) is Err) ==> apply(s, op)
            == s,
        (op matches LedgerOp::Delete(line_id) && s.delete_outcome(line_id) is Err) ==> apply(
            s,
            op,
        ) == s,
{
}

/// A line that has been created reads back with the subtotal and the tax
/// amount that were computed from the request: it is the newest line of
/// its sale, and the line found under the new identifier.
pub proof fn lemma_created_line_reads_back(s: LedgerState, detail: NewSaleDetail)
    requires
        s.wf(),
        s.create_outcome(detail) is Ok,
    ensures
        ({
            let id = s.create_outcome(detail)->Ok_0;
            let t = s.after_create(detail);
            &&& t.lines_of_sale(detail.sale_id) == s.lines_of_sale(detail.sale_id).push(
                detail.row(id),
            )
            &&& t.has_line(id)
            &&& t.line(id).subtotal == detail.subtotal()
            &&& t.line(id).tax_amount == detail.tax_amount()
            &&& t.line(id) == detail.row(id)
        }),
{
    let id = s.create_outcome(detail)->Ok_0;
    let t = s.after_create(detail);
    reveal(Seq::filter);
    assert(t.lines.drop_last() =~= s.lines);
    lemma_create_keeps_wf(s, detail);
    lemma_position_is_unique(t, id, s.lines.len() as int);
}

/// Creating a line takes exactly its quantity out of the stock of its
/// product and leaves the stock of every other product alone.
pub proof fn lemma_create_moves_stock(s: LedgerState, detail: NewSaleDetail, product_id: i32)
    requires
        s.wf(),
        s.create_outcome(detail) is Ok,
        s.products.contains_key(product_id),
    ensures
        s.after_create(detail).stock(product_id) == s.stock(product_id) - (if product_id
            == detail.product_id {
            detail.quantity as int
        } else {
            0
        }),
{
}

/// Deleting a line puts exactly the quantity that its row holds back into
/// the stock of its product and leaves the stock of every other product
/// alone.
pub proof fn lemma_delete_moves_stock(s: LedgerState, line_id: i32, product_id: i32)
    requires
        s.wf(),
        s.delete_outcome(line_id) is Ok,
        s.products.contains_key(product_id),
    ensures
        s.after_delete(line_id).stock(product_id) == s.stock(product_id) + units_of(
            s.line(line_id),
            product_id,
        ),
{
}

/// One operation leaves the sum of a product's stock and the units that
/// its lines hold as it was.
pub proof fn lemma_apply_keeps_balance(s: LedgerState, op: LedgerOp, product_id: i32)
    requires
        s.wf(),
        s.products.contains_key(product_id),
    ensures
        apply(s, op).wf(),
        apply(s, op).products.contains_key(product_id),
        apply(s, op).stock(product_id) + committed_units(apply(s, op).lines, product_id)
            == s.stock(product_id) + committed_units(s.lines, product_id),
{
    match op {
        LedgerOp::Create(detail) => {
            lemma_create_keeps_wf(s, detail);
            if s.create_outcome(detail) is Ok {
                let id = s.create_outcome(detail)->Ok_0;
                lemma_committed_push(s.lines, detail.row(id), product_id);
            }
        },
        LedgerOp::Delete(line_id) => {
            lemma_delete_keeps_wf(s, line_id);
            if s.delete_outcome(line_id) is Ok {
                lemma_committed_remove(s.lines, s.position(line_id), product_id);
            }
        },
    }
}

/// Whatever lines are created and deleted, in whatever order and whether
/// each attempt succeeds or fails, the stock of a product and the units
/// that its lines hold add up to what they added up to before.
pub proof fn lemma_stock_balance(s: LedgerState, ops: Seq<LedgerOp>, product_id: i32)
    requires
        s.wf(),
        s.products.contains_key(product_id),
    ensures
        apply_all(s, ops).wf(),
        apply_all(s, ops).products.contains_key(product_id),
        apply_all(s, ops).stock(product_id) + committed_units(apply_all(s, ops).lines, product_id)
            == s.stock(product_id) + committed_units(s.lines, product_id),
    decreases ops.len(),
{
    if ops.len() > 0 {
        lemma_stock_balance(s, ops.drop_last(), product_id);
        lemma_apply_keeps_balance(apply_all(s, ops.drop_last()), ops.last(), product_id);
    }
}

/// Starting without lines, the net change of a product's stock after any
/// sequence of operations is the negated sum of the quantities of its
/// lines that exist.
pub proof fn lemma_net_stock_change(s: LedgerState, ops: Seq<LedgerOp>, product_id: i32)
    requires
        s.wf(),
        s.lines.len() == 0,
        s.products.contains_key(product_id),
    ensures
        apply_all(s, ops).stock(product_id) - s.stock(product_id) == -committed_units(
            apply_all(s, ops).lines,
            product_id,
        ),
{
    lemma_stock_balance(s, ops, product_id);
}

/// Deleting a line that has just been created undoes the creation: the
/// products, with their stock, and the lines are as they were before.
pub proof fn lemma_delete_reverses_create(s: LedgerState, detail: NewSaleDetail)
    requires
        s.wf(),
        s.create_outcome(detail) is Ok,
    ensures
        ({
            let id = s.create_outcome(detail)->Ok_0;
            let t = s.after_create(detail).after_delete(id);
            &&& s.after_create(detail).delete_outcome(id) is Ok
            &&& t.products == s.products
            &&& t.lines == s.lines
            &&& t.sales == s.sales
        }),
{
    let id = s.create_outcome(detail)->Ok_0;
    let m = s.after_create(detail);
    lemma_create_keeps_wf(s, detail);
    lemma_position_is_unique(m, id, s.lines.len() as int);
    let t = m.after_delete(id);
    assert(t.lines =~= s.lines);
    assert(t.products =~= s.products);
}

/// A line is deleted once: after its deletion no line has its identifier,
/// and deleting it again is `NotFound` and changes nothing.
pub proof fn lemma_deleted_line_is_gone(s: LedgerState, line_id: i32)
    requires
        s.wf(),
        s.delete_outcome(line_id) is Ok,
    ensures
        !s.after_delete(line_id).has_line(line_id),
        s.after_delete(line_id).delete_outcome(line_id) == Err::<(), LedgerError>(
            LedgerError::NotFound,
        ),
        s.after_delete(line_id).after_delete(line_id) == s.after_delete(line_id),
{
    let at = s.position(line_id);
    let t = s.after_delete(line_id);
    assert forall|j: int| 0 <= j < t.lines.len() implies t.lines[j].id != line_id by {
        let k = if j < at { j } else { j + 1 };
        assert(t.lines[j] == s.lines[k]);
        if k < at {
            assert(s.lines[k].id < s.lines[at].id);
        } else {
            assert(s.lines[at].id < s.lines[k].id);
        }
    }
}

/// An identifier is given out once: a line that is created gets an
/// identifier that no line has, whatever was deleted before.
pub proof fn lemma_new_identifier_is_fresh(s: LedgerState, detail: NewSaleDetail)
    requires
        s.wf(),
        s.create_outcome(detail) is Ok,
    ensures
        !s.has_line(s.create_outcome(detail)->Ok_0),
        s.create_outcome(detail)->Ok_0 > s.last_line_id,
{
}

} // verus!
