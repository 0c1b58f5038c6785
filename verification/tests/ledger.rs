use salesys::error::LedgerError;
use salesys::ledger::{
    create_sale_detail, delete_sale_detail, get_details_by_sale,
    get_details_with_products_by_sale, Ledger,
};
use salesys::ledger_state::StockPolicy;
use salesys::product::{NewProduct, Product};
use salesys::sale_detail::{NewSaleDetail, SaleDetail, SaleDetailWithProduct};

fn product(id: i32, stock: i32) -> Product {
    Product {
        id,
        name: format!("Product {}", id),
        code: format!("P-{:03}", id),
        price: 1000,
        stock,
    }
}

fn shop(policy: StockPolicy) -> Ledger {
    let mut ledger = Ledger::new(policy);
    assert!(ledger.add_product(product(5, 10)));
    assert!(ledger.add_product(product(6, 2)));
    assert!(ledger.add_sale(1));
    assert!(ledger.add_sale(2));
    ledger
}

fn scenario_request() -> NewSaleDetail {
    NewSaleDetail {
        sale_id: 1,
        product_id: 5,
        quantity: 3,
        unit_price: 1000,
        discount: 200,
        tax_percentage: 16,
    }
}

#[test]
fn creating_a_line_stores_amounts_and_takes_stock() {
    let mut ledger = shop(StockPolicy::AllowNegative);
    let before = ledger.stock_of(5).unwrap();
    let id = create_sale_detail(&mut ledger, scenario_request()).unwrap();
    let lines = get_details_by_sale(&ledger, 1);
    assert_eq!(
        lines,
        vec![SaleDetail {
            id,
            sale_id: 1,
            product_id: 5,
            quantity: 3,
            unit_price: 1000,
            subtotal: 2800,
            discount: 200,
            tax_amount: 448,
        }]
    );
    assert_eq!(ledger.stock_of(5), Some(before - 3));
    assert_eq!(ledger.stock_of(6), Some(2));
}

#[test]
fn deleting_the_line_returns_the_stock() {
    let mut ledger = shop(StockPolicy::AllowNegative);
    let before = ledger.stock_of(5).unwrap();
    let id = create_sale_detail(&mut ledger, scenario_request()).unwrap();
    assert_eq!(ledger.stock_of(5), Some(before - 3));
    assert_eq!(delete_sale_detail(&mut ledger, id), Ok(()));
    assert_eq!(get_details_by_sale(&ledger, 1), vec![]);
    assert_eq!(ledger.line_count(), 0);
    assert_eq!(ledger.stock_of(5), Some(before));
}

#[test]
fn creating_with_zero_quantity_changes_nothing() {
    let mut ledger = shop(StockPolicy::AllowNegative);
    let request = NewSaleDetail { quantity: 0, ..scenario_request() };
    assert_eq!(create_sale_detail(&mut ledger, request), Err(LedgerError::ConstraintViolation));
    assert_eq!(ledger.line_count(), 0);
    assert_eq!(ledger.stock_of(5), Some(10));
}

#[test]
fn deleting_a_missing_line_changes_nothing() {
    let mut ledger = shop(StockPolicy::AllowNegative);
    let id = create_sale_detail(&mut ledger, scenario_request()).unwrap();
    assert_eq!(delete_sale_detail(&mut ledger, 9999), Err(LedgerError::NotFound));
    assert_eq!(ledger.line_count(), 1);
    assert_eq!(get_details_by_sale(&ledger, 1)[0].id, id);
    assert_eq!(ledger.stock_of(5), Some(7));
}

#[test]
fn deleting_twice_fails_the_second_time() {
    let mut ledger = shop(StockPolicy::AllowNegative);
    let id = create_sale_detail(&mut ledger, scenario_request()).unwrap();
    assert_eq!(delete_sale_detail(&mut ledger, id), Ok(()));
    assert_eq!(delete_sale_detail(&mut ledger, id), Err(LedgerError::NotFound));
    assert_eq!(ledger.stock_of(5), Some(10));
}

#[test]
fn line_reads_back_with_the_amounts_computed_at_creation() {
    let mut ledger = shop(StockPolicy::AllowNegative);
    let request = NewSaleDetail {
        sale_id: 2,
        product_id: 6,
        quantity: 2,
        unit_price: 199,
        discount: 9,
        tax_percentage: 21,
    };
    let amounts = request.amounts().unwrap();
    let id = create_sale_detail(&mut ledger, request).unwrap();
    let lines = get_details_by_sale(&ledger, 2);
    assert_eq!(lines.len(), 1);
    assert_eq!(lines[0].id, id);
    assert_eq!(lines[0].subtotal, amounts.subtotal);
    assert_eq!(lines[0].tax_amount, amounts.tax_amount);
    assert_eq!(lines[0].subtotal, 389);
    assert_eq!(lines[0].tax_amount, 81);
}

#[test]
fn identifiers_grow_and_are_not_reused() {
    let mut ledger = shop(StockPolicy::AllowNegative);
    let first = create_sale_detail(&mut ledger, scenario_request()).unwrap();
    let second = create_sale_detail(&mut ledger, scenario_request()).unwrap();
    assert_eq!(first, 1);
    assert_eq!(second, 2);
    assert_eq!(delete_sale_detail(&mut ledger, second), Ok(()));
    let third = create_sale_detail(&mut ledger, scenario_request()).unwrap();
    assert_eq!(third, 3);
}

#[test]
fn stock_change_is_the_negated_sum_of_live_quantities() {
    let mut ledger = shop(StockPolicy::AllowNegative);
    let start = ledger.stock_of(5).unwrap();
    let mut live: Vec<(i32, i32)> = Vec::new();
    for quantity in [3, 1, 4, 1, 5] {
        let request = NewSaleDetail { quantity, ..scenario_request() };
        let id = create_sale_detail(&mut ledger, request).unwrap();
        live.push((id, quantity));
    }
    assert_eq!(ledger.stock_of(5), Some(start - 14));
    let (gone, _) = live.remove(2);
    assert_eq!(delete_sale_detail(&mut ledger, gone), Ok(()));
    let (gone, _) = live.remove(0);
    assert_eq!(delete_sale_detail(&mut ledger, gone), Ok(()));
    let held: i32 = live.iter().map(|(_, quantity)| quantity).sum();
    assert_eq!(held, 7);
    assert_eq!(ledger.stock_of(5), Some(start - held));
    let stored: i32 = get_details_by_sale(&ledger, 1).iter().map(|line| line.quantity).sum();
    assert_eq!(stored, held);
    for (id, _) in live {
        assert_eq!(delete_sale_detail(&mut ledger, id), Ok(()));
    }
    assert_eq!(ledger.stock_of(5), Some(start));
}

#[test]
fn failed_operations_leave_the_balance_alone() {
    let mut ledger = shop(StockPolicy::AllowNegative);
    create_sale_detail(&mut ledger, scenario_request()).unwrap();
    let bad = NewSaleDetail { unit_price: -1, ..scenario_request() };
    assert_eq!(create_sale_detail(&mut ledger, bad), Err(LedgerError::ConstraintViolation));
    assert_eq!(delete_sale_detail(&mut ledger, 77), Err(LedgerError::NotFound));
    assert_eq!(ledger.stock_of(5), Some(7));
    assert_eq!(ledger.line_count(), 1);
}

#[test]
fn stock_may_go_negative_when_the_policy_allows_it() {
    let mut ledger = shop(StockPolicy::AllowNegative);
    let request = NewSaleDetail { product_id: 6, quantity: 5, ..scenario_request() };
    assert!(create_sale_detail(&mut ledger, request).is_ok());
    assert_eq!(ledger.stock_of(6), Some(-3));
}

#[test]
fn insufficient_stock_is_rejected_when_the_policy_says_so() {
    let mut ledger = shop(StockPolicy::RejectInsufficient);
    assert_eq!(ledger.policy(), StockPolicy::RejectInsufficient);
    let request = NewSaleDetail { product_id: 6, quantity: 3, ..scenario_request() };
    assert_eq!(create_sale_detail(&mut ledger, request), Err(LedgerError::ConstraintViolation));
    assert_eq!(ledger.stock_of(6), Some(2));
    assert_eq!(ledger.line_count(), 0);
    let exact = NewSaleDetail { product_id: 6, quantity: 2, ..scenario_request() };
    assert!(create_sale_detail(&mut ledger, exact).is_ok());
    assert_eq!(ledger.stock_of(6), Some(0));
}

#[test]
fn missing_sale_is_a_reference_error() {
    let mut ledger = shop(StockPolicy::AllowNegative);
    let request = NewSaleDetail { sale_id: 3, ..scenario_request() };
    assert_eq!(create_sale_detail(&mut ledger, request), Err(LedgerError::ReferenceError));
    assert_eq!(ledger.line_count(), 0);
    assert_eq!(ledger.stock_of(5), Some(10));
}

#[test]
fn missing_product_is_a_reference_error() {
    let mut ledger = shop(StockPolicy::RejectInsufficient);
    let request = NewSaleDetail { product_id: 7, ..scenario_request() };
    assert_eq!(create_sale_detail(&mut ledger, request), Err(LedgerError::ReferenceError));
    assert_eq!(ledger.line_count(), 0);
}

#[test]
fn broken_rule_is_reported_before_a_missing_reference() {
    let mut ledger = shop(StockPolicy::AllowNegative);
    let request = NewSaleDetail { sale_id: 3, product_id: 7, quantity: 0, ..scenario_request() };
    assert_eq!(create_sale_detail(&mut ledger, request), Err(LedgerError::ConstraintViolation));
}

#[test]
fn stock_that_no_longer_fits_is_a_storage_error() {
    let mut ledger = Ledger::new(StockPolicy::AllowNegative);
    assert!(ledger.add_product(product(1, i32::MIN + 2)));
    assert!(ledger.add_sale(1));
    let request = NewSaleDetail { product_id: 1, quantity: 3, ..scenario_request() };
    assert_eq!(create_sale_detail(&mut ledger, request), Err(LedgerError::StorageError));
    assert_eq!(ledger.stock_of(1), Some(i32::MIN + 2));
    assert_eq!(ledger.line_count(), 0);
    let fits = NewSaleDetail { product_id: 1, quantity: 2, ..scenario_request() };
    assert!(create_sale_detail(&mut ledger, fits).is_ok());
    assert_eq!(ledger.stock_of(1), Some(i32::MIN));
}

#[test]
fn lines_are_listed_by_sale_in_creation_order() {
    let mut ledger = shop(StockPolicy::AllowNegative);
    let a = create_sale_detail(&mut ledger, scenario_request()).unwrap();
    let other = NewSaleDetail { sale_id: 2, product_id: 6, quantity: 1, ..scenario_request() };
    let b = create_sale_detail(&mut ledger, other).unwrap();
    let again = NewSaleDetail { quantity: 1, ..scenario_request() };
    let c = create_sale_detail(&mut ledger, again).unwrap();
    let first: Vec<i32> = get_details_by_sale(&ledger, 1).iter().map(|line| line.id).collect();
    let second: Vec<i32> = get_details_by_sale(&ledger, 2).iter().map(|line| line.id).collect();
    assert_eq!(first, vec![a, c]);
    assert_eq!(second, vec![b]);
}

#[test]
fn sale_without_lines_lists_nothing() {
    let ledger = shop(StockPolicy::AllowNegative);
    assert_eq!(get_details_by_sale(&ledger, 1), vec![]);
    assert_eq!(get_details_with_products_by_sale(&ledger, 1), vec![]);
    assert_eq!(get_details_by_sale(&ledger, 404), vec![]);
}

#[test]
fn lines_are_listed_with_product_name_and_code() {
    let mut ledger = shop(StockPolicy::AllowNegative);
    let id = create_sale_detail(&mut ledger, scenario_request()).unwrap();
    let other = NewSaleDetail { product_id: 6, quantity: 1, ..scenario_request() };
    let next = create_sale_detail(&mut ledger, other).unwrap();
    let lines = get_details_with_products_by_sale(&ledger, 1);
    assert_eq!(
        lines,
        vec![
            SaleDetailWithProduct {
                id,
                sale_id: 1,
                product_id: 5,
                product_name: "Product 5".to_string(),
                product_code: "P-005".to_string(),
                quantity: 3,
                unit_price: 1000,
                subtotal: 2800,
                discount: 200,
                tax_amount: 448,
            },
            SaleDetailWithProduct {
                id: next,
                sale_id: 1,
                product_id: 6,
                product_name: "Product 6".to_string(),
                product_code: "P-006".to_string(),
                quantity: 1,
                unit_price: 1000,
                subtotal: 800,
                discount: 200,
                tax_amount: 128,
            },
        ]
    );
}

#[test]
fn stored_price_is_the_one_captured_at_the_sale() {
    let mut ledger = shop(StockPolicy::AllowNegative);
    let request = NewSaleDetail { unit_price: 1234, ..scenario_request() };
    create_sale_detail(&mut ledger, request).unwrap();
    assert_eq!(ledger.product(5).unwrap().price, 1000);
    assert_eq!(get_details_by_sale(&ledger, 1)[0].unit_price, 1234);
}

#[test]
fn product_is_filed_once() {
    let mut ledger = Ledger::new(StockPolicy::AllowNegative);
    assert!(ledger.add_product(product(1, 4)));
    assert!(!ledger.add_product(product(1, 9)));
    assert_eq!(ledger.stock_of(1), Some(4));
    assert_eq!(ledger.stock_of(2), None);
    assert!(ledger.product(2).is_none());
    assert_eq!(ledger.product(1), Some(&product(1, 4)));
}

#[test]
fn sale_is_recorded_once() {
    let mut ledger = Ledger::new(StockPolicy::AllowNegative);
    assert!(!ledger.has_sale(1));
    assert!(ledger.add_sale(1));
    assert!(!ledger.add_sale(1));
    assert!(ledger.has_sale(1));
}

#[test]
fn new_product_takes_its_identifier() {
    let attributes = NewProduct {
        name: "Pen".to_string(),
        code: "PEN".to_string(),
        price: 150,
        stock: 40,
    };
    let stored = attributes.with_id(9);
    assert_eq!(
        stored,
        Product { id: 9, name: "Pen".to_string(), code: "PEN".to_string(), price: 150, stock: 40 }
    );
    assert_eq!(stored.restocked(39).stock, 39);
    assert_eq!(stored.restocked(39).name, "Pen");
}
