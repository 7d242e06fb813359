use chrono::NaiveDate;
use sales_queries::handlers::{
    get_customer_by_id, get_customers, get_employee_with_recipient, get_employees,
    get_order_with_details, get_order_with_details_and_products, get_orders_with_details,
    get_product_with_supplier, get_products, get_supplier_by_id, get_suppliers, search_customer,
    abandon, reply_pool_failure, reply_row, reply_rows, search_product, ErrorKind, Held, IdParam,
    LimitOffset, Reply, StatusCode, DEFAULT_LIMIT, DEFAULT_OFFSET,
};
use sales_queries::connection::QueryError;
use sales_queries::models::{Customer, Employee, Order, OrderLine, Product, Supplier};
use sales_queries::pool::{Acquired, ConnectionManager, Pool, PoolConfig, PoolError};
use sales_queries::queries::TextMatch;
use sales_queries::stats::{stats_handler, CpuStats, Sampling, WARM_UP_SETTLE_MILLIS};
use sales_queries::store::Database;
use sales_queries::values::Float8;

fn day(y: i32, m: u32, d: u32) -> NaiveDate {
    NaiveDate::from_ymd_opt(y, m, d).unwrap()
}

fn amount(value: f64) -> Float8 {
    Float8::from_bits(value.to_bits())
}

fn a_customer(id: i32) -> Customer {
    Customer {
        id,
        company_name: format!("company {id}"),
        contact_name: "Maria Anders".to_string(),
        contact_title: "Sales Representative".to_string(),
        address: "Obere Str. 57".to_string(),
        city: "Berlin".to_string(),
        postal_code: Some("12209".to_string()),
        region: None,
        country: "Germany".to_string(),
        phone: "030-0074321".to_string(),
        fax: Some("030-0076545".to_string()),
    }
}

fn an_employee(id: i32, recipient_id: Option<i32>) -> Employee {
    Employee {
        id,
        last_name: format!("last {id}"),
        first_name: None,
        title: "Vice President".to_string(),
        title_of_courtesy: "Dr.".to_string(),
        birth_date: day(1952, 2, 19),
        hire_date: day(1992, 8, 14),
        address: "908 W. Capital Way".to_string(),
        city: "Tacoma".to_string(),
        postal_code: "98401".to_string(),
        country: "USA".to_string(),
        home_phone: "(206) 555-9482".to_string(),
        extension: 3457,
        notes: String::new(),
        recipient_id,
    }
}

fn a_supplier(id: i32) -> Supplier {
    Supplier {
        id,
        company_name: format!("supplier {id}"),
        contact_name: "Shelley Burke".to_string(),
        contact_title: "Order Administrator".to_string(),
        address: "P.O. Box 78934".to_string(),
        city: "New Orleans".to_string(),
        region: Some("LA".to_string()),
        postal_code: "70117".to_string(),
        country: "USA".to_string(),
        phone: "(100) 555-4822".to_string(),
    }
}

fn a_product(id: i32, supplier_id: i32) -> Product {
    Product {
        id,
        name: format!("product {id}"),
        qt_per_unit: "24 - 12 oz bottles".to_string(),
        unit_price: amount(19.0),
        units_in_stock: 17,
        units_on_order: 40,
        reorder_level: 25,
        discontinued: 0,
        supplier_id,
    }
}

fn an_order(id: i32) -> Order {
    Order {
        id,
        order_date: day(1996, 7, 4),
        required_date: day(1996, 8, 1),
        shipped_date: None,
        ship_via: 1,
        freight: amount(11.61),
        ship_name: "Toms".to_string(),
        ship_city: "Muenster".to_string(),
        ship_region: None,
        ship_postal_code: None,
        ship_country: "Germany".to_string(),
        customer_id: 1,
        employee_id: 1,
    }
}

fn a_line(id: i64, order_id: i32, product_id: i32, quantity: i32) -> OrderLine {
    OrderLine {
        unit_price: amount(2.0),
        quantity,
        discount: amount(0.0),
        order_id,
        product_id,
        id,
    }
}

fn shop() -> Database {
    let mut db = Database::new();
    for id in 1..=150 {
        assert!(db.customers.insert(a_customer(id)));
    }
    assert!(db.employees.insert(an_employee(1, None)));
    assert!(db.employees.insert(an_employee(2, Some(1))));
    assert!(db.suppliers.insert(a_supplier(1)));
    assert!(db.products.insert(a_product(1, 1)));
    assert!(db.products.insert(a_product(2, 5)));
    assert!(db.orders.insert(an_order(1)));
    assert!(db.orders.insert(an_order(2)));
    assert!(db.order_details.insert(a_line(1, 1, 1, 3)));
    assert!(db.order_details.insert(a_line(2, 1, 2, 4)));
    db
}

fn small_pool<'a>(db: &'a Database, max_size: usize, min_idle: usize) -> Pool<'a> {
    let config = PoolConfig {
        max_size,
        min_idle,
        acquire_timeout: 5_000,
        idle_timeout: 600_000,
        max_lifetime: 1_800_000,
    };
    Pool::new(config, ConnectionManager::new("postgres://localhost/sales", db), 0).unwrap()
}

fn payload<T: std::fmt::Debug>(reply: Reply<T>) -> T {
    match reply {
        Reply::Ready(payload) => payload,
        other => panic!("no payload: {other:?}"),
    }
}

const NO_PAGE: LimitOffset = LimitOffset { limit: None, offset: None };

#[test]
fn page_parameters_default_to_hundred_and_zero() {
    assert_eq!(DEFAULT_LIMIT, 100);
    assert_eq!(DEFAULT_OFFSET, 0);
    assert_eq!(NO_PAGE.limit(), 100);
    assert_eq!(NO_PAGE.offset(), 0);
    let named = LimitOffset { limit: Some(7), offset: Some(3) };
    assert_eq!(named.limit(), 7);
    assert_eq!(named.offset(), 3);
    let half = LimitOffset { limit: None, offset: Some(-3) };
    assert_eq!(half.limit(), 100);
    assert_eq!(half.offset(), -3);
}

#[test]
fn get_customers_uses_the_defaults_and_gives_the_connection_back() {
    let db = shop();
    let mut pool = small_pool(&db, 2, 1);
    let reply = get_customers(&mut pool, None, &NO_PAGE, 10);
    assert_eq!(reply.status(), Some(StatusCode::Success));
    let rows = payload(reply);
    assert_eq!(rows.len(), 100);
    assert_eq!(rows[0].id, 1);
    assert_eq!(rows[99].id, 100);
    assert_eq!(pool.idle_count(), 1);
    assert_eq!(pool.checked_out(), 0);
    let page = LimitOffset { limit: Some(3), offset: Some(148) };
    let rows = payload(get_customers(&mut pool, None, &page, 20));
    assert_eq!(rows.iter().map(|c| c.id).collect::<Vec<_>>(), vec![149, 150]);
    assert_eq!(pool.idle_count(), 1);
    assert_eq!(pool.checked_out(), 0);
}

#[test]
fn query_failure_is_a_server_error_and_still_gives_the_connection_back() {
    let db = shop();
    let mut pool = small_pool(&db, 2, 1);
    let page = LimitOffset { limit: Some(-1), offset: None };
    let reply = get_customers(&mut pool, None, &page, 10);
    assert_eq!(reply, Reply::Failed(StatusCode::InternalServerError));
    assert_eq!(reply.status(), Some(StatusCode::InternalServerError));
    assert_eq!(pool.idle_count(), 1);
    assert_eq!(pool.checked_out(), 0);
    let reply = search_customer(&mut pool, None, &TextMatch::Malformed, 20);
    assert_eq!(reply, Reply::Failed(StatusCode::InternalServerError));
    let reply = search_product(&mut pool, None, &TextMatch::Malformed, 20);
    assert_eq!(reply, Reply::Failed(StatusCode::InternalServerError));
    assert_eq!(pool.idle_count(), 1);
    assert_eq!(pool.checked_out(), 0);
}

#[test]
fn not_found_is_a_successful_empty_reply() {
    let db = shop();
    let mut pool = small_pool(&db, 2, 1);
    let missing = IdParam { id: 4_000 };
    assert_eq!(get_customer_by_id(&mut pool, None, &missing, 1), Reply::Ready(None));
    assert_eq!(get_supplier_by_id(&mut pool, None, &missing, 1), Reply::Ready(None));
    assert_eq!(get_employee_with_recipient(&mut pool, None, &missing, 1), Reply::Ready(None));
    assert_eq!(get_product_with_supplier(&mut pool, None, &missing, 1), Reply::Ready(None));
    assert_eq!(get_order_with_details(&mut pool, None, &missing, 1), Reply::Ready(None));
    let reply = get_order_with_details_and_products(&mut pool, None, &missing, 1);
    assert_eq!(reply.status(), Some(StatusCode::Success));
    assert_eq!(reply, Reply::Ready(None));
    let reply = search_customer(&mut pool, None, &TextMatch::Rows(vec![]), 1);
    assert_eq!(reply, Reply::Ready(vec![]));
    let far = LimitOffset { limit: None, offset: Some(1_000) };
    assert_eq!(get_products(&mut pool, None, &far, 1), Reply::Ready(vec![]));
    assert_eq!(pool.checked_out(), 0);
    assert_eq!(pool.idle_count(), 1);
}

#[test]
fn each_handler_answers_with_its_operation() {
    let db = shop();
    let mut pool = small_pool(&db, 2, 1);
    let one = IdParam { id: 1 };
    let two = IdParam { id: 2 };
    assert_eq!(payload(get_customer_by_id(&mut pool, None, &two, 1)), Some(a_customer(2)));
    assert_eq!(payload(get_supplier_by_id(&mut pool, None, &one, 1)), Some(a_supplier(1)));
    assert_eq!(payload(get_employees(&mut pool, None, &NO_PAGE, 1)).len(), 2);
    assert_eq!(payload(get_suppliers(&mut pool, None, &NO_PAGE, 1)), vec![a_supplier(1)]);
    assert_eq!(payload(get_products(&mut pool, None, &NO_PAGE, 1)).len(), 2);
    let joined = payload(get_employee_with_recipient(&mut pool, None, &two, 1)).unwrap();
    assert_eq!(joined.recipient_employee_id, Some(1));
    assert_eq!(joined.recipient_last_name, Some("last 1".to_string()));
    assert_eq!(joined.recipient_first_name, None);
    let alone = payload(get_employee_with_recipient(&mut pool, None, &one, 1)).unwrap();
    assert_eq!(alone.recipient_employee_id, None);
    let product = payload(get_product_with_supplier(&mut pool, None, &one, 1)).unwrap();
    assert_eq!(product.supplier_company_name, "supplier 1");
    assert_eq!(payload(get_product_with_supplier(&mut pool, None, &two, 1)), None);
    let found = payload(search_customer(&mut pool, None, &TextMatch::Rows(vec![9, 3]), 1));
    assert_eq!(found.iter().map(|c| c.id).collect::<Vec<_>>(), vec![3, 9]);
    let found = payload(search_product(&mut pool, None, &TextMatch::Rows(vec![2]), 1));
    assert_eq!(found[0].name, "product 2");
    let summaries = payload(get_orders_with_details(&mut pool, None, &NO_PAGE, 1));
    assert_eq!(summaries.len(), 2);
    assert_eq!(summaries[0].products_count, 2);
    assert_eq!(summaries[0].quantity_sum, Some(7));
    assert_eq!(summaries[1].products_count, 0);
    assert_eq!(summaries[1].quantity_sum, None);
    assert_eq!(summaries[1].total_price, None);
    let summary = payload(get_order_with_details(&mut pool, None, &one, 1)).unwrap();
    assert_eq!(summary.quantity_sum, Some(7));
    let order = payload(get_order_with_details_and_products(&mut pool, None, &one, 1)).unwrap();
    assert_eq!(order.details.len(), 2);
    assert_eq!(order.details[0].product_name, "product 1");
    assert_eq!(order.details[1].product_name, "product 2");
    assert_eq!(order.details[1].quantity, 4);
    assert_eq!(pool.checked_out(), 0);
    assert_eq!(pool.idle_count(), 1);
}

#[test]
fn exhausted_pool_makes_the_request_wait_and_serves_it_later() {
    let db = shop();
    let mut pool = small_pool(&db, 1, 0);
    let held = match pool.acquire(0) {
        Ok(Acquired::Ready(conn)) => conn,
        _ => panic!("no connection"),
    };
    let one = IdParam { id: 1 };
    let reply = get_customer_by_id(&mut pool, None, &one, 100);
    assert_eq!(reply.status(), None);
    let ticket = match reply {
        Reply::Wait(ticket) => ticket,
        other => panic!("not waiting: {other:?}"),
    };
    assert_eq!(get_customer_by_id(&mut pool, Some(ticket), &one, 200), Reply::Wait(ticket));
    pool.release(held, 300);
    let reply = get_customer_by_id(&mut pool, Some(ticket), &one, 400);
    assert_eq!(reply, Reply::Ready(Some(a_customer(1))));
    assert_eq!(pool.checked_out(), 0);
    assert_eq!(pool.idle_count(), 1);
    assert_eq!(pool.waiting_count(), 0);
}

#[test]
fn request_that_waited_too_long_is_a_server_error() {
    let db = shop();
    let mut pool = small_pool(&db, 1, 0);
    let _held = match pool.acquire(0) {
        Ok(Acquired::Ready(conn)) => conn,
        _ => panic!("no connection"),
    };
    let ticket = match get_customers(&mut pool, None, &NO_PAGE, 0) {
        Reply::Wait(ticket) => ticket,
        other => panic!("not waiting: {other:?}"),
    };
    let reply = get_customers(&mut pool, Some(ticket), &NO_PAGE, 5_000);
    assert_eq!(reply, Reply::Failed(StatusCode::InternalServerError));
    assert_eq!(pool.waiting_count(), 0);
    assert_eq!(pool.checked_out(), 1);
}

#[test]
fn unreachable_store_is_a_server_error() {
    let db = shop();
    let mut pool = small_pool(&db, 1, 0);
    pool.set_reachable(false);
    let reply = get_suppliers(&mut pool, None, &NO_PAGE, 0);
    assert_eq!(reply, Reply::Failed(StatusCode::InternalServerError));
    assert_eq!(pool.checked_out(), 0);
}

#[test]
fn error_kinds_and_statuses() {
    assert_eq!(ErrorKind::from_pool(PoolError::PoolExhausted), ErrorKind::PoolExhausted);
    assert_eq!(ErrorKind::from_pool(PoolError::ConnectionError), ErrorKind::ConnectionError);
    assert_eq!(ErrorKind::from_query(QueryError::ConnectionLost), ErrorKind::ConnectionError);
    assert_eq!(ErrorKind::from_query(QueryError::NegativeLimit), ErrorKind::QueryError);
    assert_eq!(ErrorKind::from_query(QueryError::NegativeOffset), ErrorKind::QueryError);
    assert_eq!(ErrorKind::from_query(QueryError::MalformedSearch), ErrorKind::QueryError);
    assert_eq!(ErrorKind::from_query(QueryError::OutOfRange), ErrorKind::QueryError);
    assert_eq!(ErrorKind::from_query(QueryError::Refused), ErrorKind::QueryError);
    assert!(ErrorKind::PoolExhausted.is_retryable());
    assert!(ErrorKind::ConnectionError.is_retryable());
    assert!(!ErrorKind::QueryError.is_retryable());
    for kind in [ErrorKind::PoolExhausted, ErrorKind::ConnectionError, ErrorKind::QueryError] {
        assert_eq!(kind.status(), StatusCode::InternalServerError);
    }
    assert_eq!(StatusCode::Success.as_u16(), 200);
    assert_eq!(StatusCode::InternalServerError.as_u16(), 500);
}

#[test]
fn only_the_first_sample_warms_up() {
    assert_eq!(WARM_UP_SETTLE_MILLIS, 200);
    let mut stats = CpuStats::new();
    assert!(!stats.is_warmed_up());
    assert_eq!(stats_handler(&mut stats), Sampling::WarmUp { settle_millis: 200 });
    assert!(stats.is_warmed_up());
    assert_eq!(stats_handler(&mut stats), Sampling::Immediate);
    assert_eq!(stats.begin_sample(), Sampling::Immediate);
    assert!(stats.is_warmed_up());
    let mut other = CpuStats::new();
    assert_eq!(other.begin_sample(), Sampling::WarmUp { settle_millis: 200 });
    assert_eq!(other.begin_sample(), Sampling::Immediate);
}

#[test]
fn dropped_request_gives_its_connection_back_once() {
    let db = shop();
    let mut pool = small_pool(&db, 2, 2);
    let idle_before = pool.idle_count();
    let conn = match pool.acquire(0) {
        Ok(Acquired::Ready(conn)) => conn,
        _ => panic!("no connection"),
    };
    assert_eq!(pool.checked_out(), 1);
    assert_eq!(pool.idle_count(), idle_before - 1);
    abandon(&mut pool, Held::Lease(conn), 10);
    assert_eq!(pool.checked_out(), 0);
    assert_eq!(pool.idle_count(), idle_before);
    abandon(&mut pool, Held::Nothing, 20);
    assert_eq!(pool.checked_out(), 0);
    assert_eq!(pool.idle_count(), idle_before);
}

#[test]
fn dropped_request_with_a_broken_connection_leaks_nothing() {
    let db = shop();
    let mut pool = small_pool(&db, 1, 1);
    let mut conn = match pool.acquire(0) {
        Ok(Acquired::Ready(conn)) => conn,
        _ => panic!("no connection"),
    };
    conn.sever();
    abandon(&mut pool, Held::Lease(conn), 10);
    assert_eq!(pool.checked_out(), 0);
    assert_eq!(pool.idle_count(), 0);
    let one = IdParam { id: 1 };
    assert_eq!(get_customer_by_id(&mut pool, None, &one, 20), Reply::Ready(Some(a_customer(1))));
    assert_eq!(pool.idle_count(), 1);
}

#[test]
fn dropped_request_that_waited_leaves_the_queue() {
    let db = shop();
    let mut pool = small_pool(&db, 1, 0);
    let held = match pool.acquire(0) {
        Ok(Acquired::Ready(conn)) => conn,
        _ => panic!("no connection"),
    };
    let ticket = match get_products(&mut pool, None, &NO_PAGE, 0) {
        Reply::Wait(ticket) => ticket,
        other => panic!("not waiting: {other:?}"),
    };
    assert_eq!(pool.waiting_count(), 1);
    abandon(&mut pool, Held::Ticket(ticket), 5);
    assert_eq!(pool.waiting_count(), 0);
    assert_eq!(pool.checked_out(), 1);
    abandon(&mut pool, Held::Lease(held), 6);
    assert_eq!(pool.checked_out(), 0);
    assert_eq!(pool.idle_count(), 1);
    let reply = get_products(&mut pool, Some(ticket), &NO_PAGE, 7);
    assert_eq!(reply, Reply::Failed(StatusCode::InternalServerError));
}

#[test]
fn replies_to_answers_and_failures() {
    assert_eq!(reply_rows(Ok(vec![1, 2, 3])), Reply::Ready(vec![1, 2, 3]));
    assert_eq!(reply_rows(Ok(Vec::<i32>::new())), Reply::Ready(vec![]));
    assert_eq!(reply_row(Ok(Some(7))), Reply::Ready(Some(7)));
    assert_eq!(reply_row(Ok(None::<i32>)), Reply::Ready(None));
    for e in [
        QueryError::ConnectionLost,
        QueryError::NegativeOffset,
        QueryError::NegativeLimit,
        QueryError::MalformedSearch,
        QueryError::OutOfRange,
        QueryError::Refused,
    ] {
        assert_eq!(reply_rows(Err::<Vec<i32>, _>(e)), Reply::Failed(StatusCode::InternalServerError));
        assert_eq!(reply_row(Err::<Option<i32>, _>(e)), Reply::Failed(StatusCode::InternalServerError));
    }
    for e in [PoolError::PoolExhausted, PoolError::ConnectionError] {
        let reply: Reply<Vec<i32>> = reply_pool_failure(e);
        assert_eq!(reply, Reply::Failed(StatusCode::InternalServerError));
        assert_eq!(reply.status().map(|s| s.as_u16()), Some(500));
    }
}
