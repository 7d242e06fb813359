//! The catalog of read operations and the rows they answer with.
//!
//! The shapes of the answers are what every caller works with. The
//! operations `p1` to `p13` evaluate the catalog on the tables of the
//! reference model and say, by their contracts, what each operation is to
//! answer; a caller that sends the statements to a database gets the rows
//! from there. The one decision that such a caller has to take in between,
//! whether an order's lines are fetched at all, is
//! [`after_order_fetch`], and `p13` takes it from there too.

use vstd::prelude::*;
use chrono::NaiveDate;
use crate::connection::{Connection, QueryError, QueryResult, Statement};
use crate::models::{Customer, Employee, Order, OrderLine, Product, Row, Supplier};
use crate::store::{ascending, has_key, lookup, page_of, Table};
use crate::values::{Float8, PriceTerm, PriceTotal};

verus! {

/// An employee together with the employee it reports to. The `recipient_*`
/// columns are those of the other employee, all absent where there is none.
#[derive(Debug, PartialEq)]
pub struct EmployeeWithRecipient {
    pub id: i32,
    pub last_name: String,
    pub first_name: Option<String>,
    pub title: String,
    pub title_of_courtesy: String,
    pub birth_date: NaiveDate,
    pub hire_date: NaiveDate,
    pub address: String,
    pub city: String,
    pub postal_code: String,
    pub country: String,
    pub home_phone: String,
    pub extension: i32,
    pub notes: String,
    pub recipient_id: Option<i32>,
    pub recipient_employee_id: Option<i32>,
    pub recipient_last_name: Option<String>,
    pub recipient_first_name: Option<String>,
    pub recipient_title: Option<String>,
    pub recipient_title_of_courtesy: Option<String>,
    pub recipient_birth_date: Option<NaiveDate>,
    pub recipient_hire_date: Option<NaiveDate>,
    pub recipient_address: Option<String>,
    pub recipient_city: Option<String>,
    pub recipient_postal_code: Option<String>,
    pub recipient_country: Option<String>,
    pub recipient_home_phone: Option<String>,
    pub recipient_extension: Option<i32>,
    pub recipient_notes: Option<String>,
    pub recipient_recipient_id: Option<i32>,
}

/// The employee that `employee` reports to: the row that its `recipient_id`
/// names, if it has one and the row exists.
pub open spec fn recipient_of(employees: Seq<Employee>, employee: Employee) -> Option<Employee> {
    match employee.recipient_id {
        Some(id) => lookup(employees, id as int),
        None => None,
    }
}

/// The row for `employee` left-joined with `recipient`.
pub open spec fn employee_with_recipient(
    employee: Employee,
    recipient: Option<Employee>,
) -> EmployeeWithRecipient {
    EmployeeWithRecipient {
        id: employee.id,
        last_name: employee.last_name,
        first_name: employee.first_name,
        title: employee.title,
        title_of_courtesy: employee.title_of_courtesy,
        birth_date: employee.birth_date,
        hire_date: employee.hire_date,
        address: employee.address,
        city: employee.city,
        postal_code: employee.postal_code,
        country: employee.country,
        home_phone: employee.home_phone,
        extension: employee.extension,
        notes: employee.notes,
        recipient_id: employee.recipient_id,
        recipient_employee_id: match recipient {
            Some(r) => Some(r.id),
            None => None,
        },
        recipient_last_name: match recipient {
            Some(r) => Some(r.last_name),
            None => None,
        },
        recipient_first_name: match recipient {
            Some(r) => r.first_name,
            None => None,
        },
        recipient_title: match recipient {
            Some(r) => Some(r.title),
            None => None,
        },
        recipient_title_of_courtesy: match recipient {
            Some(r) => Some(r.title_of_courtesy),
            None => None,
        },
        recipient_birth_date: match recipient {
            Some(r) => Some(r.birth_date),
            None => None,
        },
        recipient_hire_date: match recipient {
            Some(r) => Some(r.hire_date),
            None => None,
        },
        recipient_address: match recipient {
            Some(r) => Some(r.address),
            None => None,
        },
        recipient_city: match recipient {
            Some(r) => Some(r.city),
            None => None,
        },
        recipient_postal_code: match recipient {
            Some(r) => Some(r.postal_code),
            None => None,
        },
        recipient_country: match recipient {
            Some(r) => Some(r.country),
            None => None,
        },
        recipient_home_phone: match recipient {
            Some(r) => Some(r.home_phone),
            None => None,
        },
        recipient_extension: match recipient {
            Some(r) => Some(r.extension),
            None => None,
        },
        recipient_notes: match recipient {
            Some(r) => Some(r.notes),
            None => None,
        },
        recipient_recipient_id: match recipient {
            Some(r) => r.recipient_id,
            None => None,
        },
    }
}

impl EmployeeWithRecipient {
    /// Every `recipient_*` column is absent.
    pub open spec fn recipient_absent(&self) -> bool {
        &&& self.recipient_employee_id is None
        &&& self.recipient_last_name is None
        &&& self.recipient_first_name is None
        &&& self.recipient_title is None
        &&& self.recipient_title_of_courtesy is None
        &&& self.recipient_birth_date is None
        &&& self.recipient_hire_date is None
        &&& self.recipient_address is None
        &&& self.recipient_city is None
        &&& self.recipient_postal_code is None
        &&& self.recipient_country is None
        &&& self.recipient_home_phone is None
        &&& self.recipient_extension is None
        &&& self.recipient_notes is None
        &&& self.recipient_recipient_id is None
    }

    /// The `recipient_*` columns hold the columns of `recipient`.
    pub open spec fn recipient_is(&self, recipient: Employee) -> bool {
        &&& self.recipient_employee_id == Some(recipient.id)
        &&& self.recipient_last_name == Some(recipient.last_name)
        &&& self.recipient_first_name == recipient.first_name
        &&& self.recipient_title == Some(recipient.title)
        &&& self.recipient_title_of_courtesy == Some(recipient.title_of_courtesy)
        &&& self.recipient_birth_date == Some(recipient.birth_date)
        &&& self.recipient_hire_date == Some(recipient.hire_date)
        &&& self.recipient_address == Some(recipient.address)
        &&& self.recipient_city == Some(recipient.city)
        &&& self.recipient_postal_code == Some(recipient.postal_code)
        &&& self.recipient_country == Some(recipient.country)
        &&& self.recipient_home_phone == Some(recipient.home_phone)
        &&& self.recipient_extension == Some(recipient.extension)
        &&& self.recipient_notes == Some(recipient.notes)
        &&& self.recipient_recipient_id == recipient.recipient_id
    }

    /// The row for `employee` left-joined with `recipient`.
    pub fn join(employee: &Employee, recipient: Option<&Employee>) -> (row: EmployeeWithRecipient)
        ensures
            row == employee_with_recipient(
                *employee,
                match recipient {
                    Some(r) => Some(*r),
                    None => None,
                },
            ),
    {
        let e = employee.duplicate();
        match recipient {
            Some(recipient) => {
                let r = recipient.duplicate();
                EmployeeWithRecipient {
                    id: e.id,
                    last_name: e.last_name,
                    first_name: e.first_name,
                    title: e.title,
                    title_of_courtesy: e.title_of_courtesy,
                    birth_date: e.birth_date,
                    hire_date: e.hire_date,
                    address: e.address,
                    city: e.city,
                    postal_code: e.postal_code,
                    country: e.country,
                    home_phone: e.home_phone,
                    extension: e.extension,
                    notes: e.notes,
                    recipient_id: e.recipient_id,
                    recipient_employee_id: Some(r.id),
                    recipient_last_name: Some(r.last_name),
                    recipient_first_name: r.first_name,
                    recipient_title: Some(r.title),
                    recipient_title_of_courtesy: Some(r.title_of_courtesy),
                    recipient_birth_date: Some(r.birth_date),
                    recipient_hire_date: Some(r.hire_date),
                    recipient_address: Some(r.address),
                    recipient_city: Some(r.city),
                    recipient_postal_code: Some(r.postal_code),
                    recipient_country: Some(r.country),
                    recipient_home_phone: Some(r.home_phone),
                    recipient_extension: Some(r.extension),
                    recipient_notes: Some(r.notes),
                    recipient_recipient_id: r.recipient_id,
                }
            },
            None => EmployeeWithRecipient {
                id: e.id,
                last_name: e.last_name,
                first_name: e.first_name,
                title: e.title,
                title_of_courtesy: e.title_of_courtesy,
                birth_date: e.birth_date,
                hire_date: e.hire_date,
                address: e.address,
                city: e.city,
                postal_code: e.postal_code,
                country: e.country,
                home_phone: e.home_phone,
                extension: e.extension,
                notes: e.notes,
                recipient_id: e.recipient_id,
                recipient_employee_id: None,
                recipient_last_name: None,
                recipient_first_name: None,
                recipient_title: None,
                recipient_title_of_courtesy: None,
                recipient_birth_date: None,
                recipient_hire_date: None,
                recipient_address: None,
                recipient_city: None,
                recipient_postal_code: None,
                recipient_country: None,
                recipient_home_phone: None,
                recipient_extension: None,
                recipient_notes: None,
                recipient_recipient_id: None,
            },
        }
    }
}

/// A product together with its supplier.
#[derive(Debug, PartialEq)]
pub struct ProductWithSupplier {
    pub id: i32,
    pub name: String,
    pub qt_per_unit: String,
    pub unit_price: Float8,
    pub units_in_stock: i32,
    pub units_on_order: i32,
    pub reorder_level: i32,
    pub discontinued: i32,
    pub supplier_id: i32,
    pub supplier_supplier_id: i32,
    pub supplier_company_name: String,
    pub supplier_contact_name: String,
    pub supplier_contact_title: String,
    pub supplier_address: String,
    pub supplier_city: String,
    pub supplier_region: Option<String>,
    pub supplier_postal_code: String,
    pub supplier_country: String,
    pub supplier_phone: String,
}

/// The row for `product` joined with `supplier`.
pub open spec fn product_with_supplier(product: Product, supplier: Supplier) -> ProductWithSupplier {
    ProductWithSupplier {
        id: product.id,
        name: product.name,
        qt_per_unit: product.qt_per_unit,
        unit_price: product.unit_price,
        units_in_stock: product.units_in_stock,
        units_on_order: product.units_on_order,
        reorder_level: product.reorder_level,
        discontinued: product.discontinued,
        supplier_id: product.supplier_id,
        supplier_supplier_id: supplier.id,
        supplier_company_name: supplier.company_name,
        supplier_contact_name: supplier.contact_name,
        supplier_contact_title: supplier.contact_title,
        supplier_address: supplier.address,
        supplier_city: supplier.city,
        supplier_region: supplier.region,
        supplier_postal_code: supplier.postal_code,
        supplier_country: supplier.country,
        supplier_phone: supplier.phone,
    }
}

impl ProductWithSupplier {
    /// The row for `product` joined with `supplier`.
    pub fn join(product: &Product, supplier: &Supplier) -> (row: ProductWithSupplier)
        ensures
            row == product_with_supplier(*product, *supplier),
    {
        let p = product.duplicate();
        let s = supplier.duplicate();
        ProductWithSupplier {
            id: p.id,
            name: p.name,
            qt_per_unit: p.qt_per_unit,
            unit_price: p.unit_price,
            units_in_stock: p.units_in_stock,
            units_on_order: p.units_on_order,
            reorder_level: p.reorder_level,
            discontinued: p.discontinued,
            supplier_id: p.supplier_id,
            supplier_supplier_id: s.id,
            supplier_company_name: s.company_name,
            supplier_contact_name: s.contact_name,
            supplier_contact_title: s.contact_title,
            supplier_address: s.address,
            supplier_city: s.city,
            supplier_region: s.region,
            supplier_postal_code: s.postal_code,
            supplier_country: s.country,
            supplier_phone: s.phone,
        }
    }
}

/// One line of an order together with the product it names.
#[derive(Debug, PartialEq)]
pub struct OrderDetail {
    pub unit_price: Float8,
    pub quantity: i32,
    pub discount: Float8,
    pub order_id: i32,
    pub product_id: i32,
    pub id: i64,
    pub product_product_id: i32,
    pub product_name: String,
    pub product_qt_per_unit: String,
    pub product_unit_price: Float8,
    pub product_units_in_stock: i32,
    pub product_units_on_order: i32,
    pub product_reorder_level: i32,
    pub product_discontinued: i32,
    pub product_supplier_id: i32,
}

/// The row for `line` joined with `product`.
pub open spec fn order_detail(line: OrderLine, product: Product) -> OrderDetail {
    OrderDetail {
        unit_price: line.unit_price,
        quantity: line.quantity,
        discount: line.discount,
        order_id: line.order_id,
        product_id: line.product_id,
        id: line.id,
        product_product_id: product.id,
        product_name: product.name,
        product_qt_per_unit: product.qt_per_unit,
        product_unit_price: product.unit_price,
        product_units_in_stock: product.units_in_stock,
        product_units_on_order: product.units_on_order,
        product_reorder_level: product.reorder_level,
        product_discontinued: product.discontinued,
        product_supplier_id: product.supplier_id,
    }
}

impl OrderDetail {
    /// The row for `line` joined with `product`.
    pub fn join(line: &OrderLine, product: &Product) -> (row: OrderDetail)
        ensures
            row == order_detail(*line, *product),
    {
        let p = product.duplicate();
        OrderDetail {
            unit_price: line.unit_price,
            quantity: line.quantity,
            discount: line.discount,
            order_id: line.order_id,
            product_id: line.product_id,
            id: line.id,
            product_product_id: p.id,
            product_name: p.name,
            product_qt_per_unit: p.qt_per_unit,
            product_unit_price: p.unit_price,
            product_units_in_stock: p.units_in_stock,
            product_units_on_order: p.units_on_order,
            product_reorder_level: p.reorder_level,
            product_discontinued: p.discontinued,
            product_supplier_id: p.supplier_id,
        }
    }
}

/// An order together with its lines, each with the product it names.
#[derive(Debug, PartialEq)]
pub struct OrderWithDetailsAndProducts {
    pub id: i32,
    pub order_date: NaiveDate,
    pub required_date: NaiveDate,
    pub shipped_date: Option<NaiveDate>,
    pub ship_via: i32,
    pub freight: Float8,
    pub ship_name: String,
    pub ship_city: String,
    pub ship_region: Option<String>,
    pub ship_postal_code: Option<String>,
    pub ship_country: String,
    pub customer_id: i32,
    pub employee_id: i32,
    pub details: Vec<OrderDetail>,
}

/// What an [`OrderWithDetailsAndProducts`] stands for: the order's row and
/// the sequence of its lines.
pub struct OrderWithDetails {
    pub order: Order,
    pub details: Seq<OrderDetail>,
}

impl View for OrderWithDetailsAndProducts {
    type V = OrderWithDetails;

    open spec fn view(&self) -> OrderWithDetails {
        OrderWithDetails {
            order: Order {
                id: self.id,
                order_date: self.order_date,
                required_date: self.required_date,
                shipped_date: self.shipped_date,
                ship_via: self.ship_via,
                freight: self.freight,
                ship_name: self.ship_name,
                ship_city: self.ship_city,
                ship_region: self.ship_region,
                ship_postal_code: self.ship_postal_code,
                ship_country: self.ship_country,
                customer_id: self.customer_id,
                employee_id: self.employee_id,
            },
            details: self.details@,
        }
    }
}

impl OrderWithDetailsAndProducts {
    /// The order `order` with the lines `details`.
    pub fn assemble(order: Order, details: Vec<OrderDetail>) -> (row: OrderWithDetailsAndProducts)
        ensures
            row@ == (OrderWithDetails { order, details: details@ }),
    {
        OrderWithDetailsAndProducts {
            id: order.id,
            order_date: order.order_date,
            required_date: order.required_date,
            shipped_date: order.shipped_date,
            ship_via: order.ship_via,
            freight: order.freight,
            ship_name: order.ship_name,
            ship_city: order.ship_city,
            ship_region: order.ship_region,
            ship_postal_code: order.ship_postal_code,
            ship_country: order.ship_country,
            customer_id: order.customer_id,
            employee_id: order.employee_id,
            details,
        }
    }
}

/// What one order line gives to the details of the order `order_id`: the
/// line joined with its product, or nothing where the line belongs to
/// another order or names a product that does not exist.
pub open spec fn detail_for(products: Seq<Product>, order_id: int) -> spec_fn(OrderLine) -> Option<
    OrderDetail,
> {
    |line: OrderLine|
        if line.order_id == order_id {
            match lookup(products, line.product_id as int) {
                Some(product) => Some(order_detail(line, product)),
                None => None,
            }
        } else {
            None
        }
}

/// The lines of the order `order_id` joined with their products, in the
/// order of the lines' keys.
pub open spec fn details_of(lines: Seq<OrderLine>, products: Seq<Product>, order_id: int) -> Seq<
    OrderDetail,
> {
    lines.filter_map(detail_for(products, order_id))
}

/// The lines of the order `order_id` joined with their products.
fn lines_with_products(
    lines: &Table<OrderLine>,
    products: &Table<Product>,
    order_id: i32,
) -> (details: Vec<OrderDetail>)
    ensures
        details@ == details_of(lines@, products@, order_id as int),
{
    let ghost f = detail_for(products@, order_id as int);
    let mut details: Vec<OrderDetail> = Vec::new();
    let n = lines.len();
    let mut i: usize = 0;
    assert(lines@.take(0).filter_map(f) =~= Seq::<OrderDetail>::empty());
    while i < n
        invariant
            i <= n,
            n == lines@.len(),
            f == detail_for(products@, order_id as int),
            details@ == lines@.take(i as int).filter_map(f),
        decreases n - i,
    {
        let line = lines.row(i);
        proof {
            lines@.lemma_filter_map_take_succ(f, i as int);
        }
        if line.order_id == order_id {
            match products.find(line.product_id as i64) {
                Some(at) => {
                    details.push(OrderDetail::join(line, products.row(at)));
                },
                None => {},
            }
        }
        i = i + 1;
    }
    assert(lines@.take(n as int) =~= lines@);
    details
}

/// The order `id` with its lines and their products, or `None` where no
/// order has that id.
pub open spec fn order_with_details(
    orders: Seq<Order>,
    lines: Seq<OrderLine>,
    products: Seq<Product>,
    id: int,
) -> Option<OrderWithDetails> {
    match lookup(orders, id) {
        Some(order) => Some(OrderWithDetails { order, details: details_of(lines, products, id) }),
        None => None,
    }
}

/// What follows the fetch of an order.
#[derive(Debug, PartialEq)]
pub enum AfterOrder {
    /// The order does not exist: the answer is `None`, and no statement
    /// follows.
    Absent,
    /// The order exists: its lines are fetched next.
    FetchLines(Order),
}

/// Decides what follows the fetch of an order: nothing where the order was
/// not found, the fetch of its lines where it was.
pub fn after_order_fetch(order: Option<Order>) -> (next: AfterOrder)
    ensures
        next == (match order {
            Some(o) => AfterOrder::FetchLines(o),
            None => AfterOrder::Absent,
        }),
{
    match order {
        Some(o) => AfterOrder::FetchLines(o),
        None => AfterOrder::Absent,
    }
}

/// The order `id_` with its lines, each joined with its product.
///
/// Two statements, one after the other: the order is fetched first, and
/// only where it exists are its lines fetched. An order that does not exist
/// is answered with `None` after the first statement.
pub fn p13(conn: &mut Connection, id_: i32) -> (r: QueryResult<Option<OrderWithDetailsAndProducts>>)
    ensures
        old(conn)@.broken ==> (r matches Err(QueryError::ConnectionLost)) && final(conn)@ == old(
            conn,
        )@,
        !old(conn)@.broken ==> match order_with_details(
            old(conn)@.db.orders@,
            old(conn)@.db.order_details@,
            old(conn)@.db.products@,
            id_ as int,
        ) {
            Some(found) => (r matches Ok(Some(row)) && row@ == found) && final(conn)@ == old(conn)@.after(seq![Statement::OrderById, Statement::OrderLinesWithProducts]),
            None => (r matches Ok(None)) && final(conn)@ == old(conn)@.after(seq![Statement::OrderById]),
        },
{
    match conn.send(Statement::OrderById) {
        Err(e) => {
            return Err(e);
        },
        Ok(_) => {},
    }
    let db = conn.db();
    let order = match after_order_fetch(db.orders.get(id_ as i64)) {
        AfterOrder::FetchLines(order) => order,
        AfterOrder::Absent => {
            return Ok(None);
        },
    };
    match conn.send(Statement::OrderLinesWithProducts) {
        Err(e) => {
            return Err(e);
        },
        Ok(_) => {},
    }
    assert(conn@.issued =~= old(conn)@.issued + seq![
        Statement::OrderById,
        Statement::OrderLinesWithProducts,
    ]);
    let details = lines_with_products(&db.order_details, &db.products, id_);
    Ok(Some(OrderWithDetailsAndProducts::assemble(order, details)))
}

/// The employee `id` left-joined with the employee it reports to, or `None`
/// where no employee has that id.
pub open spec fn employee_and_recipient(employees: Seq<Employee>, id: int) -> Option<
    EmployeeWithRecipient,
> {
    match lookup(employees, id) {
        Some(employee) => Some(
            employee_with_recipient(employee, recipient_of(employees, employee)),
        ),
        None => None,
    }
}

/// The employee `id_` with the employee it reports to.
///
/// A left join of the employees with themselves: an employee that reports
/// to nobody, or to an id that no employee has, is answered with every
/// `recipient_*` column absent.
pub fn p5(conn: &mut Connection, id_: i32) -> (r: QueryResult<Option<EmployeeWithRecipient>>)
    ensures
        old(conn)@.broken ==> (r matches Err(QueryError::ConnectionLost)) && final(conn)@ == old(
            conn,
        )@,
        !old(conn)@.broken ==> r == Ok::<Option<EmployeeWithRecipient>, QueryError>(
            employee_and_recipient(old(conn)@.db.employees@, id_ as int),
        ) && final(conn)@ == old(conn)@.after(seq![Statement::EmployeeWithRecipient]),
{
    match conn.send(Statement::EmployeeWithRecipient) {
        Err(e) => {
            return Err(e);
        },
        Ok(_) => {},
    }
    let employees = &conn.db().employees;
    match employees.find(id_ as i64) {
        None => Ok(None),
        Some(at) => {
            let employee = employees.row(at);
            let recipient = match employee.recipient_id {
                Some(id) => match employees.find(id as i64) {
                    Some(at) => Some(employees.row(at)),
                    None => None,
                },
                None => None,
            };
            Ok(Some(EmployeeWithRecipient::join(employee, recipient)))
        },
    }
}

/// The product `id` joined with its supplier, or `None` where no product
/// has that id or its supplier does not exist.
pub open spec fn product_and_supplier(products: Seq<Product>, suppliers: Seq<Supplier>, id: int) -> Option<
    ProductWithSupplier,
> {
    match lookup(products, id) {
        Some(product) => match lookup(suppliers, product.supplier_id as int) {
            Some(supplier) => Some(product_with_supplier(product, supplier)),
            None => None,
        },
        None => None,
    }
}

/// The product `id_` with its supplier.
///
/// An inner join: a product whose `supplier_id` names no supplier gives no
/// row, as does an id that no product has.
pub fn p9(conn: &mut Connection, id_: i32) -> (r: QueryResult<Option<ProductWithSupplier>>)
    ensures
        old(conn)@.broken ==> (r matches Err(QueryError::ConnectionLost)) && final(conn)@ == old(
            conn,
        )@,
        !old(conn)@.broken ==> r == Ok::<Option<ProductWithSupplier>, QueryError>(
            product_and_supplier(
                old(conn)@.db.products@,
                old(conn)@.db.suppliers@,
                id_ as int,
            ),
        ) && final(conn)@ == old(conn)@.after(seq![Statement::ProductWithSupplier]),
{
    match conn.send(Statement::ProductWithSupplier) {
        Err(e) => {
            return Err(e);
        },
        Ok(_) => {},
    }
    let db = conn.db();
    match db.products.find(id_ as i64) {
        None => Ok(None),
        Some(at) => {
            let product = db.products.row(at);
            match db.suppliers.find(product.supplier_id as i64) {
                Some(at) => Ok(Some(ProductWithSupplier::join(product, db.suppliers.row(at)))),
                None => Ok(None),
            }
        },
    }
}

/// An order with the count of its lines, the sum of their quantities and
/// their total price. The sum and the total are absent where the order has
/// no line.
#[derive(Debug, PartialEq)]
pub struct P11Row {
    pub id: i32,
    pub shipped_date: Option<NaiveDate>,
    pub ship_name: String,
    pub ship_city: String,
    pub ship_country: String,
    pub products_count: i64,
    pub quantity_sum: Option<i64>,
    pub total_price: Option<PriceTotal>,
}

/// What a [`P11Row`] stands for: the order's columns, the count and the sum
/// as integers, and the total price as the sequence of its terms.
pub struct OrderSummary {
    pub id: i32,
    pub shipped_date: Option<NaiveDate>,
    pub ship_name: String,
    pub ship_city: String,
    pub ship_country: String,
    pub products_count: int,
    pub quantity_sum: Option<int>,
    pub total_price: Option<Seq<PriceTerm>>,
}

impl View for P11Row {
    type V = OrderSummary;

    open spec fn view(&self) -> OrderSummary {
        OrderSummary {
            id: self.id,
            shipped_date: self.shipped_date,
            ship_name: self.ship_name,
            ship_city: self.ship_city,
            ship_country: self.ship_country,
            products_count: self.products_count as int,
            quantity_sum: match self.quantity_sum {
                Some(sum) => Some(sum as int),
                None => None,
            },
            total_price: match self.total_price {
                Some(total) => Some(total.terms@),
                None => None,
            },
        }
    }
}

/// The line belongs to the order `order_id`.
pub open spec fn is_line_of(order_id: int) -> spec_fn(OrderLine) -> bool {
    |line: OrderLine| line.order_id == order_id
}

/// The lines of the order `order_id`, in the order of their keys.
pub open spec fn lines_of(lines: Seq<OrderLine>, order_id: int) -> Seq<OrderLine> {
    lines.filter(is_line_of(order_id))
}

/// The sum of the quantities of `lines`.
pub open spec fn quantity_sum(lines: Seq<OrderLine>) -> int
    decreases lines.len(),
{
    if lines.len() == 0 {
        0
    } else {
        quantity_sum(lines.drop_last()) + lines.last().quantity
    }
}

/// The term that a line adds to the total price of its order.
pub open spec fn price_term(line: OrderLine) -> PriceTerm {
    PriceTerm { quantity: line.quantity, unit_price: line.unit_price }
}

/// The terms of the total price of `lines`, one per line.
pub open spec fn price_terms(lines: Seq<OrderLine>) -> Seq<PriceTerm> {
    lines.map_values(|line: OrderLine| price_term(line))
}

/// The count of `lines` and the sum of their quantities fit in 64 bits.
pub open spec fn summary_fits(lines: Seq<OrderLine>) -> bool {
    lines.len() <= i64::MAX && i64::MIN <= quantity_sum(lines) <= i64::MAX
}

/// The summary of `order`, whose lines are `lines`.
pub open spec fn summary(order: Order, lines: Seq<OrderLine>) -> OrderSummary {
    OrderSummary {
        id: order.id,
        shipped_date: order.shipped_date,
        ship_name: order.ship_name,
        ship_city: order.ship_city,
        ship_country: order.ship_country,
        products_count: lines.len() as int,
        quantity_sum: if lines.len() == 0 {
            None
        } else {
            Some(quantity_sum(lines))
        },
        total_price: if lines.len() == 0 {
            None
        } else {
            Some(price_terms(lines))
        },
    }
}

/// The sum of quantities grows by the quantity of a line put at the end.
proof fn lemma_quantity_sum_push(lines: Seq<OrderLine>, line: OrderLine)
    ensures
        quantity_sum(lines.push(line)) == quantity_sum(lines) + line.quantity,
        price_terms(lines.push(line)) == price_terms(lines).push(price_term(line)),
{
    assert(lines.push(line).drop_last() =~= lines);
    assert(price_terms(lines.push(line)) =~= price_terms(lines).push(price_term(line)));
}

/// The sum of the quantities of `lines` is within 2^31 times their number.
proof fn lemma_quantity_sum_bound(lines: Seq<OrderLine>)
    ensures
        -0x8000_0000 * lines.len() <= quantity_sum(lines) <= 0x8000_0000 * lines.len(),
    decreases lines.len(),
{
    if lines.len() > 0 {
        lemma_quantity_sum_bound(lines.drop_last());
    }
}

/// The summary of `order` over the lines of the table that belong to it.
fn summarize(order: &Order, lines: &Table<OrderLine>) -> (r: QueryResult<P11Row>)
    ensures
        summary_fits(lines_of(lines@, order.id as int)) ==> (r matches Ok(row) && row@ == summary(
            *order,
            lines_of(lines@, order.id as int),
        )),
        !summary_fits(lines_of(lines@, order.id as int)) ==> (r matches Err(
            QueryError::OutOfRange,
        )),
{
    let ghost mine = is_line_of(order.id as int);
    let mut count: usize = 0;
    let mut sum: i128 = 0;
    let mut terms: Vec<PriceTerm> = Vec::new();
    let n = lines.len();
    let mut i: usize = 0;
    assert(lines@.take(0) =~= Seq::<OrderLine>::empty());
    proof {
        Seq::<OrderLine>::empty().lemma_filter_len(mine);
    }
    while i < n
        invariant
            i <= n,
            n == lines@.len(),
            mine == is_line_of(order.id as int),
            count == lines@.take(i as int).filter(mine).len(),
            count <= i,
            sum == quantity_sum(lines@.take(i as int).filter(mine)),
            terms@ == price_terms(lines@.take(i as int).filter(mine)),
        decreases n - i,
    {
        let line = lines.row(i);
        proof {
            let seen = lines@.take(i as int);
            assert(lines@.take(i + 1) =~= seen.push(*line));
            seen.lemma_filter_push(*line, mine);
            lemma_quantity_sum_push(seen.filter(mine), *line);
            lemma_quantity_sum_bound(seen.filter(mine));
        }
        if line.order_id == order.id {
            count = count + 1;
            sum = sum + line.quantity as i128;
            terms.push(PriceTerm { quantity: line.quantity, unit_price: line.unit_price });
        }
        i = i + 1;
    }
    assert(lines@.take(n as int) =~= lines@);
    if count as u64 > i64::MAX as u64 || sum < i64::MIN as i128 || sum > i64::MAX as i128 {
        return Err(QueryError::OutOfRange);
    }
    Ok(
        P11Row {
            id: order.id,
            shipped_date: order.shipped_date,
            ship_name: order.ship_name.clone(),
            ship_city: order.ship_city.clone(),
            ship_country: order.ship_country.clone(),
            products_count: count as i64,
            quantity_sum: if count == 0 {
                None
            } else {
                Some(sum as i64)
            },
            total_price: if count == 0 {
                None
            } else {
                Some(PriceTotal { terms })
            },
        },
    )
}

/// The order `id` with the summary of its lines, or `None` where no order
/// has that id. `Err` where the count or the sum does not fit in 64 bits.
pub open spec fn order_summary(orders: Seq<Order>, lines: Seq<OrderLine>, id: int) -> Result<
    Option<OrderSummary>,
    QueryError,
> {
    match lookup(orders, id) {
        Some(order) => if summary_fits(lines_of(lines, id)) {
            Ok(Some(summary(order, lines_of(lines, id))))
        } else {
            Err(QueryError::OutOfRange)
        },
        None => Ok(None),
    }
}

/// The order `id_` with the count of its lines, the sum of their quantities
/// and its total price.
///
/// A left join of the order with its lines, grouped by the order: an order
/// without lines is answered with the count zero and with the sum and the
/// total absent.
pub fn p12(conn: &mut Connection, id_: i32) -> (r: QueryResult<Option<P11Row>>)
    ensures
        old(conn)@.broken ==> (r matches Err(QueryError::ConnectionLost)) && final(conn)@ == old(
            conn,
        )@,
        !old(conn)@.broken ==> final(conn)@ == old(conn)@.after(seq![Statement::OrderWithDetailsById]) && match order_summary(
            old(conn)@.db.orders@,
            old(conn)@.db.order_details@,
            id_ as int,
        ) {
            Ok(Some(found)) => r matches Ok(Some(row)) && row@ == found,
            Ok(None) => r matches Ok(None),
            Err(e) => r matches Err(x) && x == e,
        },
{
    match conn.send(Statement::OrderWithDetailsById) {
        Err(e) => {
            return Err(e);
        },
        Ok(_) => {},
    }
    let db = conn.db();
    match db.orders.find(id_ as i64) {
        None => Ok(None),
        Some(at) => match summarize(db.orders.row(at), &db.order_details) {
            Ok(row) => Ok(Some(row)),
            Err(e) => Err(e),
        },
    }
}

/// The answer to a request for the rows `[offset, offset + limit)` of
/// `rows`: a negative offset is refused, then a negative limit.
pub open spec fn paged<R>(rows: Seq<R>, limit: int, offset: int) -> Result<Seq<R>, QueryError> {
    if offset < 0 {
        Err(QueryError::NegativeOffset)
    } else if limit < 0 {
        Err(QueryError::NegativeLimit)
    } else {
        Ok(page_of(rows, limit, offset))
    }
}

/// The answer `r` holds the rows `expected`, or fails as `expected` does.
pub open spec fn answers<R>(r: QueryResult<Vec<R>>, expected: Result<Seq<R>, QueryError>) -> bool {
    match expected {
        Ok(rows) => r matches Ok(v) && v@ == rows,
        Err(e) => r matches Err(x) && x == e,
    }
}

/// A count of rows as a `usize`: counts that no `usize` holds are as good
/// as the largest one, since no table has more rows than that.
fn row_count(n: i64) -> (count: usize)
    requires
        n >= 0,
    ensures
        count == if n <= usize::MAX { n as int } else { usize::MAX as int },
{
    let wide = n as u64;
    if wide > usize::MAX as u64 {
        usize::MAX
    } else {
        wide as usize
    }
}

/// Copies of the rows `[offset_, offset_ + limit_)` of `table`.
fn window<R: Row>(table: &Table<R>, limit_: i64, offset_: i64) -> (r: QueryResult<Vec<R>>)
    ensures
        r is Ok ==> ascending(table@),
        answers(r, paged(table@, limit_ as int, offset_ as int)),
{
    if offset_ < 0 {
        Err(QueryError::NegativeOffset)
    } else if limit_ < 0 {
        Err(QueryError::NegativeLimit)
    } else {
        let rows = table.page(row_count(limit_), row_count(offset_));
        assert(rows@ =~= page_of(table@, limit_ as int, offset_ as int));
        Ok(rows)
    }
}

/// The customers `[offset_, offset_ + limit_)` in ascending order of id.
pub fn p1(conn: &mut Connection, limit_: i64, offset_: i64) -> (r: QueryResult<Vec<Customer>>)
    ensures
        old(conn)@.broken ==> (r matches Err(QueryError::ConnectionLost)) && final(conn)@ == old(
            conn,
        )@,
        !old(conn)@.broken ==> final(conn)@ == old(conn)@.after(seq![Statement::CustomersPage])
            && answers(r, paged(old(conn)@.db.customers@, limit_ as int, offset_ as int)),
        r matches Ok(rows) ==> rows@.len() <= limit_ && ascending(rows@),
{
    match conn.send(Statement::CustomersPage) {
        Err(e) => {
            return Err(e);
        },
        Ok(_) => {},
    }
    let r = window(&conn.db().customers, limit_, offset_);
    proof {
        if r is Ok {
            crate::store::lemma_page_is_window(
                conn@.db.customers@,
                limit_ as int,
                offset_ as int,
            );
        }
    }
    r
}

/// The customer with the id `id_`, or `None` where there is none.
pub fn p2(conn: &mut Connection, id_: i32) -> (r: QueryResult<Option<Customer>>)
    ensures
        old(conn)@.broken ==> (r matches Err(QueryError::ConnectionLost)) && final(conn)@ == old(
            conn,
        )@,
        !old(conn)@.broken ==> final(conn)@ == old(conn)@.after(seq![Statement::CustomerById])
            && r == Ok::<Option<Customer>, QueryError>(
            lookup(old(conn)@.db.customers@, id_ as int),
        ),
{
    match conn.send(Statement::CustomerById) {
        Err(e) => {
            return Err(e);
        },
        Ok(_) => {},
    }
    Ok(conn.db().customers.get(id_ as i64))
}

/// The employees `[offset_, offset_ + limit_)` in ascending order of id.
pub fn p4(conn: &mut Connection, limit_: i64, offset_: i64) -> (r: QueryResult<Vec<Employee>>)
    ensures
        old(conn)@.broken ==> (r matches Err(QueryError::ConnectionLost)) && final(conn)@ == old(
            conn,
        )@,
        !old(conn)@.broken ==> final(conn)@ == old(conn)@.after(seq![Statement::EmployeesPage])
            && answers(r, paged(old(conn)@.db.employees@, limit_ as int, offset_ as int)),
        r matches Ok(rows) ==> rows@.len() <= limit_ && ascending(rows@),
{
    match conn.send(Statement::EmployeesPage) {
        Err(e) => {
            return Err(e);
        },
        Ok(_) => {},
    }
    let r = window(&conn.db().employees, limit_, offset_);
    proof {
        if r is Ok {
            crate::store::lemma_page_is_window(
                conn@.db.employees@,
                limit_ as int,
                offset_ as int,
            );
        }
    }
    r
}

/// The suppliers `[offset_, offset_ + limit_)` in ascending order of id.
pub fn p6(conn: &mut Connection, limit_: i64, offset_: i64) -> (r: QueryResult<Vec<Supplier>>)
    ensures
        old(conn)@.broken ==> (r matches Err(QueryError::ConnectionLost)) && final(conn)@ == old(
            conn,
        )@,
        !old(conn)@.broken ==> final(conn)@ == old(conn)@.after(seq![Statement::SuppliersPage])
            && answers(r, paged(old(conn)@.db.suppliers@, limit_ as int, offset_ as int)),
        r matches Ok(rows) ==> rows@.len() <= limit_ && ascending(rows@),
{
    match conn.send(Statement::SuppliersPage) {
        Err(e) => {
            return Err(e);
        },
        Ok(_) => {},
    }
    let r = window(&conn.db().suppliers, limit_, offset_);
    proof {
        if r is Ok {
            crate::store::lemma_page_is_window(
                conn@.db.suppliers@,
                limit_ as int,
                offset_ as int,
            );
        }
    }
    r
}

/// The supplier with the id `id_`, or `None` where there is none.
pub fn p7(conn: &mut Connection, id_: i32) -> (r: QueryResult<Option<Supplier>>)
    ensures
        old(conn)@.broken ==> (r matches Err(QueryError::ConnectionLost)) && final(conn)@ == old(
            conn,
        )@,
        !old(conn)@.broken ==> final(conn)@ == old(conn)@.after(seq![Statement::SupplierById])
            && r == Ok::<Option<Supplier>, QueryError>(
            lookup(old(conn)@.db.suppliers@, id_ as int),
        ),
{
    match conn.send(Statement::SupplierById) {
        Err(e) => {
            return Err(e);
        },
        Ok(_) => {},
    }
    Ok(conn.db().suppliers.get(id_ as i64))
}

/// The products `[offset_, offset_ + limit_)` in ascending order of id.
pub fn p8(conn: &mut Connection, limit_: i64, offset_: i64) -> (r: QueryResult<Vec<Product>>)
    ensures
        old(conn)@.broken ==> (r matches Err(QueryError::ConnectionLost)) && final(conn)@ == old(
            conn,
        )@,
        !old(conn)@.broken ==> final(conn)@ == old(conn)@.after(seq![Statement::ProductsPage])
            && answers(r, paged(old(conn)@.db.products@, limit_ as int, offset_ as int)),
        r matches Ok(rows) ==> rows@.len() <= limit_ && ascending(rows@),
{
    match conn.send(Statement::ProductsPage) {
        Err(e) => {
            return Err(e);
        },
        Ok(_) => {},
    }
    let r = window(&conn.db().products, limit_, offset_);
    proof {
        if r is Ok {
            crate::store::lemma_page_is_window(
                conn@.db.products@,
                limit_ as int,
                offset_ as int,
            );
        }
    }
    r
}

/// The lines of every order in `orders` have a count and a sum of
/// quantities that fit in 64 bits.
pub open spec fn summaries_fit(orders: Seq<Order>, lines: Seq<OrderLine>) -> bool {
    forall|i: int|
        0 <= i < orders.len() ==> summary_fits(lines_of(lines, (#[trigger] orders[i]).id as int))
}

/// The summaries of `orders`, one per order and in their order.
pub open spec fn summaries(orders: Seq<Order>, lines: Seq<OrderLine>) -> Seq<OrderSummary> {
    Seq::new(orders.len(), |i: int| summary(orders[i], lines_of(lines, orders[i].id as int)))
}

/// What the rows stand for, one summary per row.
pub open spec fn summaries_in(rows: Seq<P11Row>) -> Seq<OrderSummary> {
    Seq::new(rows.len(), |i: int| rows[i]@)
}

/// The summaries of the orders `[offset, offset + limit)`. `Err` where the
/// page is refused, or where a count or a sum does not fit in 64 bits.
pub open spec fn order_summaries(
    orders: Seq<Order>,
    lines: Seq<OrderLine>,
    limit: int,
    offset: int,
) -> Result<Seq<OrderSummary>, QueryError> {
    match paged(orders, limit, offset) {
        Ok(page) => if summaries_fit(page, lines) {
            Ok(summaries(page, lines))
        } else {
            Err(QueryError::OutOfRange)
        },
        Err(e) => Err(e),
    }
}

/// The orders `[offset_, offset_ + limit_)` in ascending order of id, each
/// with the count of its lines, the sum of their quantities and its total
/// price.
#[verifier::loop_isolation(false)]
pub fn p11(conn: &mut Connection, limit_: i64, offset_: i64) -> (r: QueryResult<Vec<P11Row>>)
    ensures
        old(conn)@.broken ==> (r matches Err(QueryError::ConnectionLost)) && final(conn)@ == old(
            conn,
        )@,
        !old(conn)@.broken ==> final(conn)@ == old(conn)@.after(seq![Statement::OrdersWithDetailsPage]) && match order_summaries(
            old(conn)@.db.orders@,
            old(conn)@.db.order_details@,
            limit_ as int,
            offset_ as int,
        ) {
            Ok(found) => r matches Ok(rows) && summaries_in(rows@) == found,
            Err(e) => r matches Err(x) && x == e,
        },
        r matches Ok(rows) ==> rows@.len() <= limit_,
{
    match conn.send(Statement::OrdersWithDetailsPage) {
        Err(e) => {
            return Err(e);
        },
        Ok(_) => {},
    }
    let db = conn.db();
    let page = match window(&db.orders, limit_, offset_) {
        Ok(page) => page,
        Err(e) => {
            return Err(e);
        },
    };
    proof {
        crate::store::lemma_page_is_window(db.orders@, limit_ as int, offset_ as int);
    }
    let ghost lines = db.order_details@;
    let mut rows: Vec<P11Row> = Vec::new();
    let mut i: usize = 0;
    while i < page.len()
        invariant
            i <= page@.len(),
            lines == db.order_details@,
            rows@.len() == i,
            forall|j: int|
                0 <= j < i ==> summary_fits(lines_of(lines, (#[trigger] page@[j]).id as int)),
            forall|j: int|
                0 <= j < i ==> (#[trigger] rows@[j])@ == summary(
                    page@[j],
                    lines_of(lines, page@[j].id as int),
                ),
        decreases page@.len() - i,
    {
        match summarize(&page[i], &db.order_details) {
            Ok(row) => {
                rows.push(row);
            },
            Err(e) => {
                return Err(e);
            },
        }
        i = i + 1;
    }
    assert(summaries_in(rows@) =~= summaries(page@, lines));
    Ok(rows)
}

/// What the store's full-text search made of a term.
///
/// Whether a text matches a search expression is the store's to decide: it
/// parses the term and matches it against the words of the text, neither of
/// which is done here. The search operations take its verdict and answer
/// with the rows.
#[derive(Debug, PartialEq)]
pub enum TextMatch {
    /// The term is not a well-formed search expression.
    Malformed,
    /// The ids of the rows whose text matches the term, in any order.
    Rows(Vec<i32>),
}

/// Whether `id` is among `ids`.
fn is_among(ids: &Vec<i32>, id: i32) -> (found: bool)
    ensures
        found == ids@.contains(id),
{
    let mut i: usize = 0;
    while i < ids.len()
        invariant
            i <= ids@.len(),
            forall|j: int| 0 <= j < i ==> ids@[j] != id,
        decreases ids@.len() - i,
    {
        if ids[i] == id {
            return true;
        }
        i = i + 1;
    }
    false
}

/// A customer that a full-text search on the company name found.
#[derive(Debug, PartialEq)]
pub struct CustomerSearchResult {
    pub id: i32,
    pub company_name: String,
    pub contact_name: String,
    pub contact_title: String,
    pub address: String,
    pub city: String,
    pub postal_code: Option<String>,
    pub region: Option<String>,
    pub country: String,
    pub phone: String,
    pub fax: Option<String>,
}

/// The search result for `customer`: the same columns.
pub open spec fn customer_found(customer: Customer) -> CustomerSearchResult {
    CustomerSearchResult {
        id: customer.id,
        company_name: customer.company_name,
        contact_name: customer.contact_name,
        contact_title: customer.contact_title,
        address: customer.address,
        city: customer.city,
        postal_code: customer.postal_code,
        region: customer.region,
        country: customer.country,
        phone: customer.phone,
        fax: customer.fax,
    }
}

impl CustomerSearchResult {
    /// The search result for `customer`.
    pub fn of(customer: &Customer) -> (row: CustomerSearchResult)
        ensures
            row == customer_found(*customer),
    {
        let c = customer.duplicate();
        CustomerSearchResult {
            id: c.id,
            company_name: c.company_name,
            contact_name: c.contact_name,
            contact_title: c.contact_title,
            address: c.address,
            city: c.city,
            postal_code: c.postal_code,
            region: c.region,
            country: c.country,
            phone: c.phone,
            fax: c.fax,
        }
    }
}

/// The customer's id is among `ids`.
pub open spec fn customer_among(ids: Seq<i32>) -> spec_fn(Customer) -> bool {
    |customer: Customer| ids.contains(customer.id)
}

/// The answer to a search for customers that the store matched as `found`:
/// the matched customers in ascending order of id.
pub open spec fn customers_found(customers: Seq<Customer>, found: TextMatch) -> Result<
    Seq<CustomerSearchResult>,
    QueryError,
> {
    match found {
        TextMatch::Malformed => Err(QueryError::MalformedSearch),
        TextMatch::Rows(ids) => Ok(
            customers.filter(customer_among(ids@)).map_values(
                |customer: Customer| customer_found(customer),
            ),
        ),
    }
}

/// The customers whose company name the store's full-text search matched.
///
/// `found` is the store's verdict on the search term. A malformed term is a
/// `MalformedSearch` error; a term that matches nothing gives no rows; ids
/// that no customer has give no row either.
pub fn p3(conn: &mut Connection, found: &TextMatch) -> (r: QueryResult<Vec<CustomerSearchResult>>)
    ensures
        old(conn)@.broken ==> (r matches Err(QueryError::ConnectionLost)) && final(conn)@ == old(
            conn,
        )@,
        !old(conn)@.broken ==> final(conn)@ == old(conn)@.after(seq![Statement::CustomerSearch])
            && answers(r, customers_found(old(conn)@.db.customers@, *found)),
{
    match conn.send(Statement::CustomerSearch) {
        Err(e) => {
            return Err(e);
        },
        Ok(_) => {},
    }
    let ids = match found {
        TextMatch::Malformed => {
            return Err(QueryError::MalformedSearch);
        },
        TextMatch::Rows(ids) => ids,
    };
    let customers = &conn.db().customers;
    let ghost among = customer_among(ids@);
    let ghost project = |customer: Customer| customer_found(customer);
    let mut rows: Vec<CustomerSearchResult> = Vec::new();
    let n = customers.len();
    let mut i: usize = 0;
    proof {
        assert(customers@.take(0) =~= Seq::<Customer>::empty());
        Seq::<Customer>::empty().lemma_filter_len(among);
        assert(rows@ =~= customers@.take(0).filter(among).map_values(project));
    }
    while i < n
        invariant
            i <= n,
            n == customers@.len(),
            among == customer_among(ids@),
            project == |customer: Customer| customer_found(customer),
            rows@ == customers@.take(i as int).filter(among).map_values(project),
        decreases n - i,
    {
        let customer = customers.row(i);
        proof {
            let seen = customers@.take(i as int);
            assert(customers@.take(i + 1) =~= seen.push(*customer));
            seen.lemma_filter_push(*customer, among);
            assert(seen.filter(among).push(*customer).map_values(project) =~= seen.filter(
                among,
            ).map_values(project).push(customer_found(*customer)));
        }
        if is_among(ids, customer.id) {
            rows.push(CustomerSearchResult::of(customer));
        }
        i = i + 1;
    }
    assert(customers@.take(n as int) =~= customers@);
    Ok(rows)
}

/// A product that a full-text search on the name found.
#[derive(Debug, PartialEq)]
pub struct ProductSearchResult {
    pub id: i32,
    pub name: String,
    pub qt_per_unit: String,
    pub unit_price: Float8,
    pub units_in_stock: i32,
    pub units_on_order: i32,
    pub reorder_level: i32,
    pub discontinued: i32,
    pub supplier_id: i32,
}

/// The search result for `product`: the same columns.
pub open spec fn product_found(product: Product) -> ProductSearchResult {
    ProductSearchResult {
        id: product.id,
        name: product.name,
        qt_per_unit: product.qt_per_unit,
        unit_price: product.unit_price,
        units_in_stock: product.units_in_stock,
        units_on_order: product.units_on_order,
        reorder_level: product.reorder_level,
        discontinued: product.discontinued,
        supplier_id: product.supplier_id,
    }
}

impl ProductSearchResult {
    /// The search result for `product`.
    pub fn of(product: &Product) -> (row: ProductSearchResult)
        ensures
            row == product_found(*product),
    {
        let p = product.duplicate();
        ProductSearchResult {
            id: p.id,
            name: p.name,
            qt_per_unit: p.qt_per_unit,
            unit_price: p.unit_price,
            units_in_stock: p.units_in_stock,
            units_on_order: p.units_on_order,
            reorder_level: p.reorder_level,
            discontinued: p.discontinued,
            supplier_id: p.supplier_id,
        }
    }
}

/// The product's id is among `ids`.
pub open spec fn product_among(ids: Seq<i32>) -> spec_fn(Product) -> bool {
    |product: Product| ids.contains(product.id)
}

/// The answer to a search for products that the store matched as `found`:
/// the matched products in ascending order of id.
pub open spec fn products_found(products: Seq<Product>, found: TextMatch) -> Result<
    Seq<ProductSearchResult>,
    QueryError,
> {
    match found {
        TextMatch::Malformed => Err(QueryError::MalformedSearch),
        TextMatch::Rows(ids) => Ok(
            products.filter(product_among(ids@)).map_values(
                |product: Product| product_found(product),
            ),
        ),
    }
}

/// The products whose name the store's full-text search matched.
///
/// `found` is the store's verdict on the search term. A malformed term is a
/// `MalformedSearch` error; a term that matches nothing gives no rows; ids
/// that no product has give no row either.
pub fn p10(conn: &mut Connection, found: &TextMatch) -> (r: QueryResult<Vec<ProductSearchResult>>)
    ensures
        old(conn)@.broken ==> (r matches Err(QueryError::ConnectionLost)) && final(conn)@ == old(
            conn,
        )@,
        !old(conn)@.broken ==> final(conn)@ == old(conn)@.after(seq![Statement::ProductSearch])
            && answers(r, products_found(old(conn)@.db.products@, *found)),
{
    match conn.send(Statement::ProductSearch) {
        Err(e) => {
            return Err(e);
        },
        Ok(_) => {},
    }
    let ids = match found {
        TextMatch::Malformed => {
            return Err(QueryError::MalformedSearch);
        },
        TextMatch::Rows(ids) => ids,
    };
    let products = &conn.db().products;
    let ghost among = product_among(ids@);
    let ghost project = |product: Product| product_found(product);
    let mut rows: Vec<ProductSearchResult> = Vec::new();
    let n = products.len();
    let mut i: usize = 0;
    proof {
        assert(products@.take(0) =~= Seq::<Product>::empty());
        Seq::<Product>::empty().lemma_filter_len(among);
        assert(rows@ =~= products@.take(0).filter(among).map_values(project));
    }
    while i < n
        invariant
            i <= n,
            n == products@.len(),
            among == product_among(ids@),
            project == |product: Product| product_found(product),
            rows@ == products@.take(i as int).filter(among).map_values(project),
        decreases n - i,
    {
        let product = products.row(i);
        proof {
            let seen = products@.take(i as int);
            assert(products@.take(i + 1) =~= seen.push(*product));
            seen.lemma_filter_push(*product, among);
            assert(seen.filter(among).push(*product).map_values(project) =~= seen.filter(
                among,
            ).map_values(project).push(product_found(*product)));
        }
        if is_among(ids, product.id) {
            rows.push(ProductSearchResult::of(product));
        }
        i = i + 1;
    }
    assert(products@.take(n as int) =~= products@);
    Ok(rows)
}

/// An employee that reports to nobody, or to an id that no employee has, is
/// answered with every `recipient_*` column absent. One that reports to an
/// existing employee is answered with that employee's columns.
pub proof fn lemma_recipient_columns(employees: Seq<Employee>, id: int)
    requires
        ascending(employees),
    ensures
        match lookup(employees, id) {
            None => employee_and_recipient(employees, id) is None,
            Some(employee) => employee_and_recipient(employees, id) matches Some(row) && row.id
                == employee.id && row.recipient_id == employee.recipient_id && match recipient_of(
                employees,
                employee,
            ) {
                Some(recipient) => employee.recipient_id == Some(recipient.id)
                    && row.recipient_is(recipient),
                None => row.recipient_absent(),
            },
        },
        lookup(employees, id) matches Some(employee) && employee.recipient_id is None
            ==> employee_and_recipient(employees, id).unwrap().recipient_absent(),
{
    match lookup(employees, id) {
        Some(employee) => {
            match employee.recipient_id {
                Some(rid) => {
                    crate::store::lemma_lookup_finds_the_row(employees, rid as int);
                },
                None => {},
            }
        },
        None => {},
    }
}

/// A product whose supplier does not exist is answered with `None`, though
/// the product itself exists.
pub proof fn lemma_product_needs_supplier(products: Seq<Product>, suppliers: Seq<Supplier>, id: int)
    requires
        lookup(products, id) matches Some(product) && !has_key(
            suppliers,
            product.supplier_id as int,
        ),
    ensures
        product_and_supplier(products, suppliers, id) is None,
{
}

/// An order without lines has the count zero and neither a sum of
/// quantities nor a total price. An order with lines has their number as
/// its count, and a sum and a total.
pub proof fn lemma_summary_of_lines(order: Order, lines: Seq<OrderLine>)
    ensures
        summary(order, lines).products_count == lines.len(),
        lines.len() == 0 ==> summary(order, lines).quantity_sum is None && summary(
            order,
            lines,
        ).total_price is None,
        lines.len() > 0 ==> summary(order, lines).quantity_sum == Some(quantity_sum(lines))
            && summary(order, lines).total_price == Some(price_terms(lines)) && price_terms(
            lines,
        ).len() == lines.len(),
{
}

/// The lines of an order are the lines of the table that name it, and no
/// others; an order that no line names has none.
pub proof fn lemma_lines_of_order(lines: Seq<OrderLine>, order_id: int)
    ensures
        forall|i: int|
            0 <= i < lines_of(lines, order_id).len() ==> (#[trigger] lines_of(
                lines,
                order_id,
            )[i]).order_id == order_id && lines.contains(lines_of(lines, order_id)[i]),
        forall|i: int|
            0 <= i < lines.len() && (#[trigger] lines[i]).order_id == order_id ==> lines_of(
                lines,
                order_id,
            ).contains(lines[i]),
        (forall|i: int| 0 <= i < lines.len() ==> (#[trigger] lines[i]).order_id != order_id)
            ==> lines_of(lines, order_id).len() == 0,
{
    let mine = is_line_of(order_id);
    let found = lines.filter(mine);
    assert forall|i: int| 0 <= i < found.len() implies (#[trigger] found[i]).order_id == order_id
        && lines.contains(found[i]) by {
        lines.lemma_filter_pred(mine, i);
        assert(found.contains(found[i]));
        lines.lemma_filter_contains_rev(mine, found[i]);
    }
    assert forall|i: int| 0 <= i < lines.len() && (#[trigger] lines[i]).order_id
        == order_id implies found.contains(lines[i]) by {
        lines.lemma_filter_contains(mine, i);
    }
    if forall|i: int| 0 <= i < lines.len() ==> (#[trigger] lines[i]).order_id != order_id {
        if found.len() > 0 {
            assert(found[0].order_id == order_id);
            assert(lines.contains(found[0]));
            let at = choose|at: int| 0 <= at < lines.len() && lines[at] == found[0];
            assert(lines[at].order_id != order_id);
        }
    }
}

/// An order that does not exist has no details to fetch: the answer is
/// `None` whatever the lines and the products are.
pub proof fn lemma_missing_order_has_no_details(
    orders: Seq<Order>,
    lines: Seq<OrderLine>,
    products: Seq<Product>,
    id: int,
)
    requires
        !has_key(orders, id),
    ensures
        order_with_details(orders, lines, products, id) is None,
{
}

} // verus!
