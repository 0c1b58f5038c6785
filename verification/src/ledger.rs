//! A ledger held in memory, and the operations on sale lines.

use vstd::prelude::*;
use std::collections::HashMap;
use std::collections::HashSet;
use crate::error::LedgerError;
use crate::ledger_state::joined;
use crate::ledger_state::LedgerState;
use crate::ledger_state::StockPolicy;
use crate::product::Product;
use crate::sale_detail::NewSaleDetail;
use crate::sale_detail::SaleDetail;
use crate::sale_detail::SaleDetailWithProduct;

verus! {

broadcast use vstd::std_specs::hash::group_hash_axioms;

/// A ledger held in memory.
pub struct Ledger {
    products: HashMap<i32, Product>,
    sales: HashSet<i32>,
    lines: Vec<SaleDetail>,
    last_line_id: i32,
    policy: StockPolicy,
}

impl View for Ledger {
    type V = LedgerState;

    closed spec fn view(&self) -> LedgerState {
        LedgerState {
            products: self.products@,
            sales: self.sales@,
            lines: self.lines@,
            last_line_id: self.last_line_id,
            policy: self.policy,
        }
    }
}

impl Ledger {
    /// The ledger's state is well formed.
    pub open spec fn wf(&self) -> bool {
        self@.wf()
    }

    /// A ledger without products, sales or lines.
    pub fn new(policy: StockPolicy) -> (ledger: Ledger)
        ensures
            ledger.wf(),
            ledger@.products == Map::<i32, Product>::empty(),
            ledger@.sales == Set::<i32>::empty(),
            ledger@.lines == Seq::<SaleDetail>::empty(),
            ledger@.last_line_id == 0,
            ledger@.policy == policy,
    {
        Ledger {
            products: HashMap::new(),
            sales: HashSet::new(),
            lines: Vec::new(),
            last_line_id: 0,
            policy,
        }
    }

    /// The policy on insufficient stock.
    pub fn policy(&self) -> (policy: StockPolicy)
        ensures
            policy == self@.policy,
    {
        self.policy
    }

    /// Files a product under its identifier. Returns `false`, and changes
    /// nothing, when a product with that identifier exists already.
    pub fn add_product(&mut self, product: Product) -> (added: bool)
        requires
            old(self).wf(),
        ensures
            final(self).wf(),
            added == !old(self)@.products.contains_key(product.id),
            added ==> final(self)@ == (LedgerState {
                products: old(self)@.products.insert(product.id, product),
                ..old(self)@
            }),
            !added ==> final(self)@ == old(self)@,
    {
        if self.products.contains_key(&product.id) {
            return false;
        }
        let id: i32 = product.id;
        self.products.insert(id, product);
        true
    }

    /// Records that a sale exists. Returns `false` when it was known
    /// already.
    pub fn add_sale(&mut self, sale_id: i32) -> (added: bool)
        requires
            old(self).wf(),
        ensures
            final(self).wf(),
            added == !old(self)@.sales.contains(sale_id),
            final(self)@ == (LedgerState {
                sales: old(self)@.sales.insert(sale_id),
                ..old(self)@
            }),
    {
        self.sales.insert(sale_id)
    }

    /// Whether a sale with this identifier exists.
    pub fn has_sale(&self, sale_id: i32) -> (found: bool)
        ensures
            found == self@.sales.contains(sale_id),
    {
        self.sales.contains(&sale_id)
    }

    /// The product with this identifier.
    pub fn product(&self, product_id: i32) -> (found: Option<&Product>)
        ensures
            found is Some == self@.products.contains_key(product_id),
            found is Some ==> *found->Some_0 == self@.products[product_id],
    {
        self.products.get(&product_id)
    }

    /// The units on hand of the product with this identifier.
    pub fn stock_of(&self, product_id: i32) -> (units: Option<i32>)
        ensures
            units is Some == self@.products.contains_key(product_id),
            units is Some ==> units->Some_0 == self@.stock(product_id),
    {
        match self.products.get(&product_id) {
            Some(product) => Some(product.stock),
            None => None,
        }
    }

    /// The number of lines that exist.
    pub fn line_count(&self) -> (count: usize)
        ensures
            count == self@.lines.len(),
    {
        self.lines.len()
    }
}

/// The index of the line with the given identifier, if there is one.
fn find_line(lines: &Vec<SaleDetail>, line_id: i32) -> (found: Option<usize>)
    ensures
        match found {
            Some(i) => i < lines@.len() && lines@[i as int].id == line_id,
            None => forall|j: int| 0 <= j < lines@.len() ==> lines@[j].id != line_id,
        },
{
    let mut i: usize = 0;
    while i < lines.len()
        invariant
            i <= lines@.len(),
            forall|j: int| 0 <= j < i ==> lines@[j].id != line_id,
        decreases lines@.len() - i,
    {
        if lines[i].id == line_id {
            return Some(i);
        }
        i += 1;
    }
    None
}

/// Creates a sale line: derives its subtotal and tax amount, appends the
/// row and takes its quantity out of the product's stock. Either all of
/// this happens or, on failure, none of it.
pub fn create_sale_detail(ledger: &mut Ledger, detail: NewSaleDetail) -> (r: Result<
    i32,
    LedgerError,
>)
    requires
        old(ledger).wf(),
    ensures
        final(ledger).wf(),
        r == old(ledger)@.create_outcome(detail),
        final(ledger)@ == old(ledger)@.after_create(detail),
{
    let amounts = match detail.amounts() {
        Ok(amounts) => amounts,
        Err(e) => {
            return Err(e);
        },
    };
    if !ledger.sales.contains(&detail.sale_id) {
        return Err(LedgerError::ReferenceError);
    }
    let updated: Product = match ledger.products.get(&detail.product_id) {
        None => {
            return Err(LedgerError::ReferenceError);
        },
        Some(product) => {
            if ledger.last_line_id == i32::MAX {
                return Err(LedgerError::StorageError);
            }
            if ledger.policy == StockPolicy::RejectInsufficient && product.stock
                < detail.quantity {
                return Err(LedgerError::ConstraintViolation);
            }
            if product.stock < i32::MIN + detail.quantity {
                return Err(LedgerError::StorageError);
            }
            product.restocked(product.stock - detail.quantity)
        },
    };
    let id: i32 = ledger.last_line_id + 1;
    let row = SaleDetail {
        id,
        sale_id: detail.sale_id,
        product_id: detail.product_id,
        quantity: detail.quantity,
        unit_price: detail.unit_price,
        subtotal: amounts.subtotal,
        discount: detail.discount,
        tax_amount: amounts.tax_amount,
    };
    ledger.lines.push(row);
    ledger.products.insert(detail.product_id, updated);
    ledger.last_line_id = id;
    Ok(id)
}

/// Deletes a sale line and puts its quantity, as the row holds it, back
/// into the product's stock. Either both happen or, on failure, neither.
pub fn delete_sale_detail(ledger: &mut Ledger, id: i32) -> (r: Result<(), LedgerError>)
    requires
        old(ledger).wf(),
    ensures
        final(ledger).wf(),
        r == old(ledger)@.delete_outcome(id),
        final(ledger)@ == old(ledger)@.after_delete(id),
{
    let index: usize = match find_line(&ledger.lines, id) {
        Some(index) => index,
        None => {
            return Err(LedgerError::NotFound);
        },
    };
    let line: SaleDetail = ledger.lines[index];
    proof {
        assert(ledger@.has_line(id));
        assert(ledger@.position(id) == index);
    }
    let updated: Product = match ledger.products.get(&line.product_id) {
        None => {
            proof {
                assert(false);
            }
            return Err(LedgerError::StorageError);
        },
        Some(product) => {
            if product.stock > i32::MAX - line.quantity {
                return Err(LedgerError::StorageError);
            }
            product.restocked(product.stock + line.quantity)
        },
    };
    ledger.lines.remove(index);
    ledger.products.insert(line.product_id, updated);
    Ok(())
}

/// The lines of a sale with all their stored fields, oldest first.
pub fn get_details_by_sale(ledger: &Ledger, sale_id: i32) -> (lines: Vec<SaleDetail>)
    ensures
        lines@ == ledger@.lines_of_sale(sale_id),
{
    let mut out: Vec<SaleDetail> = Vec::new();
    let mut i: usize = 0;
    let ghost wanted = |line: SaleDetail| line.sale_id == sale_id;
    proof {
        reveal(Seq::filter);
        assert(ledger.lines@.take(0) =~= Seq::<SaleDetail>::empty());
    }
    while i < ledger.lines.len()
        invariant
            i <= ledger.lines@.len(),
            wanted == |line: SaleDetail| line.sale_id == sale_id,
            out@ == ledger.lines@.take(i as int).filter(wanted),
        decreases ledger.lines@.len() - i,
    {
        let line: SaleDetail = ledger.lines[i];
        proof {
            reveal(Seq::filter);
            assert(ledger.lines@.take(i + 1).drop_last() =~= ledger.lines@.take(i as int));
        }
        if line.sale_id == sale_id {
            out.push(line);
        }
        i += 1;
    }
    proof {
        assert(ledger.lines@.take(i as int) =~= ledger.lines@);
    }
    out
}

/// The lines of a sale, oldest first, each with the name and code of its
/// product. A sale without lines gives an empty list.
pub fn get_details_with_products_by_sale(ledger: &Ledger, sale_id: i32) -> (lines: Vec<
    SaleDetailWithProduct,
>)
    requires
        ledger.wf(),
    ensures
        lines@ == ledger@.joined_lines_of_sale(sale_id),
{
    let mut out: Vec<SaleDetailWithProduct> = Vec::new();
    let mut i: usize = 0;
    let ghost wanted = |line: SaleDetail| line.sale_id == sale_id;
    let ghost join = |line: SaleDetail| joined(line, ledger@.products[line.product_id]);
    proof {
        reveal(Seq::filter);
        assert(ledger.lines@.take(0) =~= Seq::<SaleDetail>::empty());
        assert(Seq::<SaleDetail>::empty().map_values(join) =~= Seq::<
            SaleDetailWithProduct,
        >::empty());
    }
    while i < ledger.lines.len()
        invariant
            ledger.wf(),
            i <= ledger.lines@.len(),
            wanted == |line: SaleDetail| line.sale_id == sale_id,
            join == |line: SaleDetail| joined(line, ledger@.products[line.product_id]),
            out@ == ledger.lines@.take(i as int).filter(wanted).map_values(join),
        decreases ledger.lines@.len() - i,
    {
        let line: SaleDetail = ledger.lines[i];
        proof {
            reveal(Seq::filter);
            assert(ledger.lines@.take(i + 1).drop_last() =~= ledger.lines@.take(i as int));
            assert(ledger@.lines[i as int] == line);
            assert(ledger@.products.contains_key(line.product_id));
        }
        if line.sale_id == sale_id {
            match ledger.products.get(&line.product_id) {
                Some(product) => {
                    let ghost before = ledger.lines@.take(i as int).filter(wanted);
                    out.push(
                        SaleDetailWithProduct {
                            id: line.id,
                            sale_id: line.sale_id,
                            product_id: line.product_id,
                            product_name: product.name.clone(),
                            product_code: product.code.clone(),
                            quantity: line.quantity,
                            unit_price: line.unit_price,
                            subtotal: line.subtotal,
                            discount: line.discount,
                            tax_amount: line.tax_amount,
                        },
                    );
                    proof {
                        assert(before.push(line).map_values(join) =~= before.map_values(
                            join,
                        ).push(join(line)));
                    }
                },
                None => {
                    proof {
                        assert(false);
                    }
                },
            }
        }
        i += 1;
    }
    proof {
        assert(ledger.lines@.take(i as int) =~= ledger.lines@);
    }
    out
}

} // verus!
