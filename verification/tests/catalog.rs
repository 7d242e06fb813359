use chrono::NaiveDate;
use sales_queries::connection::{Connection, QueryError, Statement};
use sales_queries::models::{Customer, Employee, Order, OrderLine, Product, Supplier};
use sales_queries::queries::{
    after_order_fetch, p1, p10, p11, p12, p13, p2, p3, p4, p5, p6, p7, p8, p9, AfterOrder,
    TextMatch,
};
use sales_queries::store::{Database, Table};
use sales_queries::values::{Float8, PriceTerm, PriceTotal};

fn date(y: i32, m: u32, d: u32) -> NaiveDate {
    NaiveDate::from_ymd_opt(y, m, d).unwrap()
}

fn price(value: f64) -> Float8 {
    Float8::from_bits(value.to_bits())
}

fn value_of(total: &PriceTotal) -> f64 {
    total
        .terms
        .iter()
        .map(|term| term.quantity as f64 * f64::from_bits(term.unit_price.to_bits()))
        .sum()
}

fn customer(id: i32, company: &str) -> Customer {
    Customer {
        id,
        company_name: company.to_string(),
        contact_name: format!("contact {id}"),
        contact_title: "Owner".to_string(),
        address: format!("{id} Main Street"),
        city: "Berlin".to_string(),
        postal_code: if id % 2 == 0 { Some(format!("1{id:04}")) } else { None },
        region: None,
        country: "Germany".to_string(),
        phone: "030-0074321".to_string(),
        fax: None,
    }
}

fn employee(id: i32, last_name: &str, recipient_id: Option<i32>) -> Employee {
    Employee {
        id,
        last_name: last_name.to_string(),
        first_name: Some(format!("first {id}")),
        title: "Sales Representative".to_string(),
        title_of_courtesy: "Ms.".to_string(),
        birth_date: date(1960 + id, 5, 17),
        hire_date: date(1992, 4, 1),
        address: "507 - 20th Ave. E.".to_string(),
        city: "Seattle".to_string(),
        postal_code: "98122".to_string(),
        country: "USA".to_string(),
        home_phone: "(206) 555-9857".to_string(),
        extension: 5467,
        notes: "notes".to_string(),
        recipient_id,
    }
}

fn supplier(id: i32, company: &str) -> Supplier {
    Supplier {
        id,
        company_name: company.to_string(),
        contact_name: "Charlotte Cooper".to_string(),
        contact_title: "Purchasing Manager".to_string(),
        address: "49 Gilbert St.".to_string(),
        city: "London".to_string(),
        region: None,
        postal_code: "EC1 4SD".to_string(),
        country: "UK".to_string(),
        phone: "(171) 555-2222".to_string(),
    }
}

fn product(id: i32, name: &str, unit_price: f64, supplier_id: i32) -> Product {
    Product {
        id,
        name: name.to_string(),
        qt_per_unit: "10 boxes".to_string(),
        unit_price: price(unit_price),
        units_in_stock: 39,
        units_on_order: 0,
        reorder_level: 10,
        discontinued: 0,
        supplier_id,
    }
}

fn order(id: i32, shipped: Option<NaiveDate>) -> Order {
    Order {
        id,
        order_date: date(1996, 7, 4),
        required_date: date(1996, 8, 1),
        shipped_date: shipped,
        ship_via: 3,
        freight: price(32.38),
        ship_name: format!("ship {id}"),
        ship_city: "Reims".to_string(),
        ship_region: None,
        ship_postal_code: Some("51100".to_string()),
        ship_country: "France".to_string(),
        customer_id: 1,
        employee_id: 5,
    }
}

fn line(id: i64, order_id: i32, product_id: i32, quantity: i32, unit_price: f64) -> OrderLine {
    OrderLine {
        unit_price: price(unit_price),
        quantity,
        discount: price(0.0),
        order_id,
        product_id,
        id,
    }
}

fn sample_db() -> Database {
    let mut db = Database::new();
    for (id, name) in [(3, "Cactus"), (1, "Alfreds"), (5, "Ernst"), (2, "Ana"), (4, "Drachen")] {
        assert!(db.customers.insert(customer(id, name)));
    }
    assert!(db.employees.insert(employee(1, "Davolio", Some(2))));
    assert!(db.employees.insert(employee(2, "Fuller", None)));
    assert!(db.employees.insert(employee(3, "Leverling", Some(99))));
    assert!(db.suppliers.insert(supplier(1, "Exotic Liquids")));
    assert!(db.products.insert(product(1, "Chai", 18.0, 1)));
    assert!(db.products.insert(product(2, "Chang", 19.0, 1)));
    assert!(db.products.insert(product(3, "Orphan Syrup", 10.0, 7)));
    assert!(db.orders.insert(order(10, Some(date(1996, 7, 16)))));
    assert!(db.orders.insert(order(11, None)));
    assert!(db.orders.insert(order(12, None)));
    assert!(db.order_details.insert(line(2, 10, 2, 1, 5.0)));
    assert!(db.order_details.insert(line(1, 10, 1, 2, 10.0)));
    assert!(db.order_details.insert(line(3, 12, 9, 4, 1.5)));
    assert!(db.order_details.insert(line(4, 12, 1, 6, 2.5)));
    db
}

#[test]
fn table_keeps_rows_in_key_order() {
    let mut table: Table<Customer> = Table::new();
    assert!(table.insert(customer(7, "g")));
    assert!(table.insert(customer(2, "b")));
    assert!(table.insert(customer(5, "e")));
    assert_eq!(table.len(), 3);
    assert_eq!(table.row(0).id, 2);
    assert_eq!(table.row(1).id, 5);
    assert_eq!(table.row(2).id, 7);
    assert_eq!(table.find(5), Some(1));
    assert_eq!(table.find(6), None);
    assert_eq!(table.get(7), Some(customer(7, "g")));
    assert_eq!(table.get(1), None);
}

#[test]
fn table_refuses_a_second_row_with_the_same_key() {
    let mut table: Table<Customer> = Table::new();
    assert!(table.insert(customer(1, "first")));
    assert!(!table.insert(customer(1, "second")));
    assert_eq!(table.len(), 1);
    assert_eq!(table.row(0).company_name, "first");
}

#[test]
fn table_page_is_a_window_of_the_rows() {
    let db = sample_db();
    let ids = |rows: Vec<Customer>| rows.iter().map(|c| c.id).collect::<Vec<_>>();
    assert_eq!(ids(db.customers.page(2, 1)), vec![2, 3]);
    assert_eq!(ids(db.customers.page(10, 3)), vec![4, 5]);
    assert_eq!(ids(db.customers.page(usize::MAX, usize::MAX)), Vec::<i32>::new());
    assert_eq!(ids(db.customers.page(0, 0)), Vec::<i32>::new());
}

#[test]
fn list_customers_returns_the_window_in_ascending_id_order() {
    let db = sample_db();
    let mut conn = Connection::open(&db, 0);
    let rows = p1(&mut conn, 2, 1).unwrap();
    assert_eq!(rows, vec![customer(2, "Ana"), customer(3, "Cactus")]);
    let rows = p1(&mut conn, 100, 0).unwrap();
    assert_eq!(rows.iter().map(|c| c.id).collect::<Vec<_>>(), vec![1, 2, 3, 4, 5]);
    let rows = p1(&mut conn, 3, 4).unwrap();
    assert_eq!(rows.iter().map(|c| c.id).collect::<Vec<_>>(), vec![5]);
    assert_eq!(p1(&mut conn, 3, 5).unwrap(), vec![]);
    assert_eq!(p1(&mut conn, 0, 0).unwrap(), vec![]);
    assert_eq!(p1(&mut conn, i64::MAX, i64::MAX).unwrap(), vec![]);
    assert_eq!(p1(&mut conn, i64::MAX, 0).unwrap().len(), 5);
}

#[test]
fn list_customers_never_returns_more_than_limit_rows() {
    let db = sample_db();
    let mut conn = Connection::open(&db, 0);
    for limit in 0..8 {
        for offset in 0..8 {
            let rows = p1(&mut conn, limit, offset).unwrap();
            assert!(rows.len() as i64 <= limit);
            let expected: Vec<i32> =
                (1..=5).skip(offset as usize).take(limit as usize).collect();
            assert_eq!(rows.iter().map(|c| c.id).collect::<Vec<_>>(), expected);
            assert!(rows.windows(2).all(|w| w[0].id < w[1].id));
        }
    }
}

#[test]
fn negative_offset_is_refused_before_negative_limit() {
    let db = sample_db();
    let mut conn = Connection::open(&db, 0);
    assert_eq!(p1(&mut conn, 10, -1), Err(QueryError::NegativeOffset));
    assert_eq!(p1(&mut conn, -1, 0), Err(QueryError::NegativeLimit));
    assert_eq!(p1(&mut conn, -1, -1), Err(QueryError::NegativeOffset));
    assert_eq!(p4(&mut conn, -5, 0), Err(QueryError::NegativeLimit));
    assert_eq!(p6(&mut conn, 1, i64::MIN), Err(QueryError::NegativeOffset));
    assert_eq!(p8(&mut conn, i64::MIN, 0), Err(QueryError::NegativeLimit));
    assert_eq!(p11(&mut conn, 1, -1).unwrap_err(), QueryError::NegativeOffset);
    assert_eq!(p11(&mut conn, -1, 1).unwrap_err(), QueryError::NegativeLimit);
    assert_eq!(conn.statements_sent(), 8);
}

#[test]
fn list_employees_suppliers_products_page_in_id_order() {
    let db = sample_db();
    let mut conn = Connection::open(&db, 0);
    let employees = p4(&mut conn, 2, 1).unwrap();
    assert_eq!(employees, vec![employee(2, "Fuller", None), employee(3, "Leverling", Some(99))]);
    let suppliers = p6(&mut conn, 5, 0).unwrap();
    assert_eq!(suppliers, vec![supplier(1, "Exotic Liquids")]);
    let products = p8(&mut conn, 1, 2).unwrap();
    assert_eq!(products, vec![product(3, "Orphan Syrup", 10.0, 7)]);
    assert_eq!(conn.statement(0), Statement::EmployeesPage);
    assert_eq!(conn.statement(1), Statement::SuppliersPage);
    assert_eq!(conn.statement(2), Statement::ProductsPage);
}

#[test]
fn customer_by_id_returns_the_row_or_nothing() {
    let db = sample_db();
    let mut conn = Connection::open(&db, 0);
    assert_eq!(p2(&mut conn, 4), Ok(Some(customer(4, "Drachen"))));
    assert_eq!(p2(&mut conn, 6), Ok(None));
    assert_eq!(p2(&mut conn, -4), Ok(None));
    assert_eq!(p2(&mut conn, i32::MIN), Ok(None));
    assert_eq!(conn.statements_sent(), 4);
    assert_eq!(conn.statement(3), Statement::CustomerById);
}

#[test]
fn customer_by_id_keeps_absent_columns_absent() {
    let db = sample_db();
    let mut conn = Connection::open(&db, 0);
    let odd = p2(&mut conn, 3).unwrap().unwrap();
    assert_eq!(odd.postal_code, None);
    assert_eq!(odd.region, None);
    assert_eq!(odd.fax, None);
    let even = p2(&mut conn, 2).unwrap().unwrap();
    assert_eq!(even.postal_code, Some("10002".to_string()));
}

#[test]
fn supplier_by_id_returns_the_row_or_nothing() {
    let db = sample_db();
    let mut conn = Connection::open(&db, 0);
    assert_eq!(p7(&mut conn, 1), Ok(Some(supplier(1, "Exotic Liquids"))));
    assert_eq!(p7(&mut conn, 2), Ok(None));
    assert_eq!(conn.statement(0), Statement::SupplierById);
}

#[test]
fn employee_without_recipient_has_every_recipient_column_absent() {
    let db = sample_db();
    let mut conn = Connection::open(&db, 0);
    let row = p5(&mut conn, 2).unwrap().unwrap();
    assert_eq!(row.id, 2);
    assert_eq!(row.last_name, "Fuller");
    assert_eq!(row.first_name, Some("first 2".to_string()));
    assert_eq!(row.birth_date, date(1962, 5, 17));
    assert_eq!(row.recipient_id, None);
    assert_eq!(row.recipient_employee_id, None);
    assert_eq!(row.recipient_last_name, None);
    assert_eq!(row.recipient_first_name, None);
    assert_eq!(row.recipient_title, None);
    assert_eq!(row.recipient_title_of_courtesy, None);
    assert_eq!(row.recipient_birth_date, None);
    assert_eq!(row.recipient_hire_date, None);
    assert_eq!(row.recipient_address, None);
    assert_eq!(row.recipient_city, None);
    assert_eq!(row.recipient_postal_code, None);
    assert_eq!(row.recipient_country, None);
    assert_eq!(row.recipient_home_phone, None);
    assert_eq!(row.recipient_extension, None);
    assert_eq!(row.recipient_notes, None);
    assert_eq!(row.recipient_recipient_id, None);
}

#[test]
fn employee_with_recipient_carries_the_recipients_columns() {
    let db = sample_db();
    let mut conn = Connection::open(&db, 0);
    let row = p5(&mut conn, 1).unwrap().unwrap();
    assert_eq!(row.id, 1);
    assert_eq!(row.last_name, "Davolio");
    assert_eq!(row.recipient_id, Some(2));
    assert_eq!(row.recipient_employee_id, Some(2));
    assert_eq!(row.recipient_last_name, Some("Fuller".to_string()));
    assert_eq!(row.recipient_first_name, Some("first 2".to_string()));
    assert_eq!(row.recipient_title, Some("Sales Representative".to_string()));
    assert_eq!(row.recipient_title_of_courtesy, Some("Ms.".to_string()));
    assert_eq!(row.recipient_birth_date, Some(date(1962, 5, 17)));
    assert_eq!(row.recipient_hire_date, Some(date(1992, 4, 1)));
    assert_eq!(row.recipient_address, Some("507 - 20th Ave. E.".to_string()));
    assert_eq!(row.recipient_city, Some("Seattle".to_string()));
    assert_eq!(row.recipient_postal_code, Some("98122".to_string()));
    assert_eq!(row.recipient_country, Some("USA".to_string()));
    assert_eq!(row.recipient_home_phone, Some("(206) 555-9857".to_string()));
    assert_eq!(row.recipient_extension, Some(5467));
    assert_eq!(row.recipient_notes, Some("notes".to_string()));
    assert_eq!(row.recipient_recipient_id, None);
}

#[test]
fn employee_with_unknown_recipient_or_unknown_id() {
    let db = sample_db();
    let mut conn = Connection::open(&db, 0);
    let row = p5(&mut conn, 3).unwrap().unwrap();
    assert_eq!(row.recipient_id, Some(99));
    assert_eq!(row.recipient_employee_id, None);
    assert_eq!(row.recipient_last_name, None);
    assert_eq!(row.recipient_extension, None);
    assert_eq!(p5(&mut conn, 4), Ok(None));
    assert_eq!(conn.statements_sent(), 2);
    assert_eq!(conn.statement(1), Statement::EmployeeWithRecipient);
}

#[test]
fn product_with_supplier_joins_the_two_rows() {
    let db = sample_db();
    let mut conn = Connection::open(&db, 0);
    let row = p9(&mut conn, 2).unwrap().unwrap();
    assert_eq!(row.id, 2);
    assert_eq!(row.name, "Chang");
    assert_eq!(f64::from_bits(row.unit_price.to_bits()), 19.0);
    assert_eq!(row.supplier_id, 1);
    assert_eq!(row.supplier_supplier_id, 1);
    assert_eq!(row.supplier_company_name, "Exotic Liquids");
    assert_eq!(row.supplier_region, None);
    assert_eq!(row.supplier_phone, "(171) 555-2222");
}

#[test]
fn product_without_resolvable_supplier_is_absent() {
    let db = sample_db();
    let mut conn = Connection::open(&db, 0);
    assert_eq!(db.products.get(3).map(|p| p.supplier_id), Some(7));
    assert_eq!(p9(&mut conn, 3), Ok(None));
    assert_eq!(p9(&mut conn, 4), Ok(None));
    assert_eq!(conn.statement(0), Statement::ProductWithSupplier);
}

#[test]
fn order_aggregate_of_an_order_without_lines() {
    let db = sample_db();
    let mut conn = Connection::open(&db, 0);
    let row = p12(&mut conn, 11).unwrap().unwrap();
    assert_eq!(row.id, 11);
    assert_eq!(row.shipped_date, None);
    assert_eq!(row.ship_name, "ship 11");
    assert_eq!(row.products_count, 0);
    assert_eq!(row.quantity_sum, None);
    assert_eq!(row.total_price, None);
}

#[test]
fn order_aggregate_of_two_lines() {
    let db = sample_db();
    let mut conn = Connection::open(&db, 0);
    let row = p12(&mut conn, 10).unwrap().unwrap();
    assert_eq!(row.id, 10);
    assert_eq!(row.shipped_date, Some(date(1996, 7, 16)));
    assert_eq!(row.ship_city, "Reims");
    assert_eq!(row.ship_country, "France");
    assert_eq!(row.products_count, 2);
    assert_eq!(row.quantity_sum, Some(3));
    let total = row.total_price.unwrap();
    assert_eq!(
        total.terms,
        vec![
            PriceTerm { quantity: 2, unit_price: price(10.0) },
            PriceTerm { quantity: 1, unit_price: price(5.0) },
        ]
    );
    assert_eq!(value_of(&total), 25.0);
    assert_eq!(p12(&mut conn, 13).unwrap(), None);
    assert_eq!(conn.statement(0), Statement::OrderWithDetailsById);
}

#[test]
fn orders_with_details_pages_the_aggregates() {
    let db = sample_db();
    let mut conn = Connection::open(&db, 0);
    let rows = p11(&mut conn, 100, 0).unwrap();
    assert_eq!(rows.iter().map(|r| r.id).collect::<Vec<_>>(), vec![10, 11, 12]);
    assert_eq!(rows[0].products_count, 2);
    assert_eq!(rows[0].quantity_sum, Some(3));
    assert_eq!(value_of(rows[0].total_price.as_ref().unwrap()), 25.0);
    assert_eq!(rows[1].products_count, 0);
    assert_eq!(rows[1].quantity_sum, None);
    assert_eq!(rows[1].total_price, None);
    assert_eq!(rows[2].products_count, 2);
    assert_eq!(rows[2].quantity_sum, Some(10));
    assert_eq!(value_of(rows[2].total_price.as_ref().unwrap()), 21.0);
    let rows = p11(&mut conn, 1, 1).unwrap();
    assert_eq!(rows.len(), 1);
    assert_eq!(rows[0].id, 11);
    assert_eq!(p11(&mut conn, 5, 3).unwrap(), vec![]);
    assert_eq!(conn.statement(0), Statement::OrdersWithDetailsPage);
}

#[test]
fn order_aggregate_sums_negative_and_large_quantities() {
    let mut db = Database::new();
    assert!(db.orders.insert(order(1, None)));
    assert!(db.order_details.insert(line(1, 1, 1, i32::MAX, 1.0)));
    assert!(db.order_details.insert(line(2, 1, 1, i32::MAX, 1.0)));
    assert!(db.order_details.insert(line(3, 1, 1, -5, 1.0)));
    let mut conn = Connection::open(&db, 0);
    let row = p12(&mut conn, 1).unwrap().unwrap();
    assert_eq!(row.products_count, 3);
    assert_eq!(row.quantity_sum, Some(2 * i32::MAX as i64 - 5));
}

#[test]
fn missing_order_is_absent_after_one_statement() {
    let db = sample_db();
    let mut conn = Connection::open(&db, 0);
    assert_eq!(p13(&mut conn, 13), Ok(None));
    assert_eq!(conn.statements_sent(), 1);
    assert_eq!(conn.statement(0), Statement::OrderById);
}

#[test]
fn order_with_details_and_products_embeds_the_lines() {
    let db = sample_db();
    let mut conn = Connection::open(&db, 0);
    let found = p13(&mut conn, 10).unwrap().unwrap();
    assert_eq!(conn.statements_sent(), 2);
    assert_eq!(conn.statement(0), Statement::OrderById);
    assert_eq!(conn.statement(1), Statement::OrderLinesWithProducts);
    assert_eq!(found.id, 10);
    assert_eq!(found.order_date, date(1996, 7, 4));
    assert_eq!(found.required_date, date(1996, 8, 1));
    assert_eq!(found.shipped_date, Some(date(1996, 7, 16)));
    assert_eq!(found.ship_via, 3);
    assert_eq!(f64::from_bits(found.freight.to_bits()), 32.38);
    assert_eq!(found.ship_region, None);
    assert_eq!(found.ship_postal_code, Some("51100".to_string()));
    assert_eq!(found.customer_id, 1);
    assert_eq!(found.employee_id, 5);
    assert_eq!(found.details.len(), 2);
    assert_eq!(found.details[0].id, 1);
    assert_eq!(found.details[0].quantity, 2);
    assert_eq!(found.details[0].product_id, 1);
    assert_eq!(found.details[0].product_product_id, 1);
    assert_eq!(found.details[0].product_name, "Chai");
    assert_eq!(f64::from_bits(found.details[0].product_unit_price.to_bits()), 18.0);
    assert_eq!(found.details[1].id, 2);
    assert_eq!(found.details[1].product_name, "Chang");
    assert_eq!(f64::from_bits(found.details[1].unit_price.to_bits()), 5.0);
}

#[test]
fn order_lines_without_a_product_are_left_out() {
    let db = sample_db();
    let mut conn = Connection::open(&db, 0);
    let found = p13(&mut conn, 12).unwrap().unwrap();
    assert_eq!(found.details.len(), 1);
    assert_eq!(found.details[0].id, 4);
    assert_eq!(found.details[0].quantity, 6);
    let empty = p13(&mut conn, 11).unwrap().unwrap();
    assert_eq!(empty.id, 11);
    assert_eq!(empty.shipped_date, None);
    assert!(empty.details.is_empty());
    assert_eq!(conn.statements_sent(), 4);
}

#[test]
fn search_customers_answers_with_the_matched_rows_in_id_order() {
    let db = sample_db();
    let mut conn = Connection::open(&db, 0);
    let rows = p3(&mut conn, &TextMatch::Rows(vec![4, 77, 1, 4])).unwrap();
    assert_eq!(rows.iter().map(|r| r.id).collect::<Vec<_>>(), vec![1, 4]);
    assert_eq!(rows[0].company_name, "Alfreds");
    assert_eq!(rows[0].postal_code, None);
    assert_eq!(rows[1].company_name, "Drachen");
    assert_eq!(rows[1].postal_code, Some("10004".to_string()));
    assert_eq!(p3(&mut conn, &TextMatch::Rows(vec![])).unwrap(), vec![]);
    assert_eq!(conn.statement(0), Statement::CustomerSearch);
}

#[test]
fn search_products_answers_with_the_matched_rows_in_id_order() {
    let db = sample_db();
    let mut conn = Connection::open(&db, 0);
    let rows = p10(&mut conn, &TextMatch::Rows(vec![3, 2])).unwrap();
    assert_eq!(rows.iter().map(|r| r.id).collect::<Vec<_>>(), vec![2, 3]);
    assert_eq!(rows[0].name, "Chang");
    assert_eq!(rows[1].supplier_id, 7);
    assert_eq!(p10(&mut conn, &TextMatch::Rows(vec![100])).unwrap(), vec![]);
    assert_eq!(conn.statement(0), Statement::ProductSearch);
}

#[test]
fn malformed_search_term_is_a_query_error() {
    let db = sample_db();
    let mut conn = Connection::open(&db, 0);
    assert_eq!(p3(&mut conn, &TextMatch::Malformed), Err(QueryError::MalformedSearch));
    assert_eq!(p10(&mut conn, &TextMatch::Malformed), Err(QueryError::MalformedSearch));
    assert_eq!(conn.statements_sent(), 2);
}

#[test]
fn broken_connection_answers_nothing_and_sends_nothing() {
    let db = sample_db();
    let mut conn = Connection::open(&db, 7);
    assert!(!conn.is_broken());
    assert_eq!(conn.opened_at(), 7);
    assert!(p2(&mut conn, 1).unwrap().is_some());
    conn.sever();
    assert!(conn.is_broken());
    assert_eq!(p1(&mut conn, 1, 0), Err(QueryError::ConnectionLost));
    assert_eq!(p2(&mut conn, 1), Err(QueryError::ConnectionLost));
    assert_eq!(p3(&mut conn, &TextMatch::Rows(vec![1])), Err(QueryError::ConnectionLost));
    assert_eq!(p4(&mut conn, 1, 0), Err(QueryError::ConnectionLost));
    assert_eq!(p5(&mut conn, 1), Err(QueryError::ConnectionLost));
    assert_eq!(p6(&mut conn, 1, 0), Err(QueryError::ConnectionLost));
    assert_eq!(p7(&mut conn, 1), Err(QueryError::ConnectionLost));
    assert_eq!(p8(&mut conn, 1, 0), Err(QueryError::ConnectionLost));
    assert_eq!(p9(&mut conn, 1), Err(QueryError::ConnectionLost));
    assert_eq!(p10(&mut conn, &TextMatch::Malformed), Err(QueryError::ConnectionLost));
    assert_eq!(p11(&mut conn, 1, 0), Err(QueryError::ConnectionLost));
    assert_eq!(p12(&mut conn, 10), Err(QueryError::ConnectionLost));
    assert_eq!(p13(&mut conn, 10), Err(QueryError::ConnectionLost));
    assert_eq!(conn.statements_sent(), 1);
}

#[test]
fn float_column_values_keep_their_bits() {
    for value in [0.0f64, -0.0, 1.5, 32.38, f64::MAX, f64::MIN_POSITIVE, f64::INFINITY] {
        let held = price(value);
        assert_eq!(held.to_bits(), value.to_bits());
        assert_eq!(f64::from_bits(held.bits), value);
    }
    let nan = price(f64::NAN);
    assert!(f64::from_bits(nan.to_bits()).is_nan());
}

#[test]
fn lines_are_fetched_only_for_an_order_that_was_found() {
    assert_eq!(after_order_fetch(None), AfterOrder::Absent);
    assert_eq!(
        after_order_fetch(Some(order(10, None))),
        AfterOrder::FetchLines(order(10, None))
    );
    let shipped = order(11, Some(date(1996, 7, 16)));
    match after_order_fetch(Some(shipped)) {
        AfterOrder::FetchLines(found) => {
            assert_eq!(found.id, 11);
            assert_eq!(found.shipped_date, Some(date(1996, 7, 16)));
            assert_eq!(found.ship_region, None);
        }
        AfterOrder::Absent => panic!("the order was found"),
    }
}
