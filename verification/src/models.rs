//! The stored rows, one struct per table, columns in the tables' order.

use vstd::prelude::*;
use chrono::NaiveDate;
use crate::values::{clone_text, Float8};

verus! {

/// A row with an integer primary key.
pub trait Row: Sized {
    /// The row's primary key.
    spec fn key(&self) -> int;

    /// The row's primary key.
    fn primary_key(&self) -> (k: i64)
        ensures
            k == self.key(),
    ;

    /// A copy of the row, equal to it in every column.
    fn duplicate(&self) -> (r: Self)
        ensures
            r == *self,
    ;
}

#[derive(Debug, PartialEq)]
pub struct Customer {
    pub id: i32,
    pub company_name: String,
    pub contact_name: String,
    pub contact_title: String,
    pub address: String,
    pub city: String,
    pub postal_code: Option<String>,
    pub region: Option<String>,
    pub country: String,
    pub phone: String,
    pub fax: Option<String>,
}

#[derive(Debug, PartialEq)]
pub struct Employee {
    pub id: i32,
    pub last_name: String,
    pub first_name: Option<String>,
    pub title: String,
    pub title_of_courtesy: String,
    pub birth_date: NaiveDate,
    pub hire_date: NaiveDate,
    pub address: String,
    pub city: String,
    pub postal_code: String,
    pub country: String,
    pub home_phone: String,
    pub extension: i32,
    pub notes: String,
    /// The employee this one reports to, if any.
    pub recipient_id: Option<i32>,
}

#[derive(Debug, PartialEq)]
pub struct Supplier {
    pub id: i32,
    pub company_name: String,
    pub contact_name: String,
    pub contact_title: String,
    pub address: String,
    pub city: String,
    pub region: Option<String>,
    pub postal_code: String,
    pub country: String,
    pub phone: String,
}

#[derive(Debug, PartialEq)]
pub struct Product {
    pub id: i32,
    pub name: String,
    pub qt_per_unit: String,
    pub unit_price: Float8,
    pub units_in_stock: i32,
    pub units_on_order: i32,
    pub reorder_level: i32,
    pub discontinued: i32,
    pub supplier_id: i32,
}

#[derive(Debug, PartialEq)]
pub struct Order {
    pub id: i32,
    pub order_date: NaiveDate,
    pub required_date: NaiveDate,
    pub shipped_date: Option<NaiveDate>,
    pub ship_via: i32,
    pub freight: Float8,
    pub ship_name: String,
    pub ship_city: String,
    pub ship_region: Option<String>,
    pub ship_postal_code: Option<String>,
    pub ship_country: String,
    pub customer_id: i32,
    pub employee_id: i32,
}

/// A row of the order details table: one line of an order.
#[derive(Debug, PartialEq)]
pub struct OrderLine {
    pub unit_price: Float8,
    pub quantity: i32,
    pub discount: Float8,
    pub order_id: i32,
    pub product_id: i32,
    pub id: i64,
}

impl Row for Customer {
    open spec fn key(&self) -> int {
        self.id as int
    }

    fn primary_key(&self) -> (k: i64) {
        self.id as i64
    }

    fn duplicate(&self) -> (r: Customer) {
        Customer {
            id: self.id,
            company_name: self.company_name.clone(),
            contact_name: self.contact_name.clone(),
            contact_title: self.contact_title.clone(),
            address: self.address.clone(),
            city: self.city.clone(),
            postal_code: clone_text(&self.postal_code),
            region: clone_text(&self.region),
            country: self.country.clone(),
            phone: self.phone.clone(),
            fax: clone_text(&self.fax),
        }
    }
}

impl Row for Employee {
    open spec fn key(&self) -> int {
        self.id as int
    }

    fn primary_key(&self) -> (k: i64) {
        self.id as i64
    }

    fn duplicate(&self) -> (r: Employee) {
        Employee {
            id: self.id,
            last_name: self.last_name.clone(),
            first_name: clone_text(&self.first_name),
            title: self.title.clone(),
            title_of_courtesy: self.title_of_courtesy.clone(),
            birth_date: self.birth_date,
            hire_date: self.hire_date,
            address: self.address.clone(),
            city: self.city.clone(),
            postal_code: self.postal_code.clone(),
            country: self.country.clone(),
            home_phone: self.home_phone.clone(),
            extension: self.extension,
            notes: self.notes.clone(),
            recipient_id: self.recipient_id,
        }
    }
}

impl Row for Supplier {
    open spec fn key(&self) -> int {
        self.id as int
    }

    fn primary_key(&self) -> (k: i64) {
        self.id as i64
    }

    fn duplicate(&self) -> (r: Supplier) {
        Supplier {
            id: self.id,
            company_name: self.company_name.clone(),
            contact_name: self.contact_name.clone(),
            contact_title: self.contact_title.clone(),
            address: self.address.clone(),
            city: self.city.clone(),
            region: clone_text(&self.region),
            postal_code: self.postal_code.clone(),
            country: self.country.clone(),
            phone: self.phone.clone(),
        }
    }
}

impl Row for Product {
    open spec fn key(&self) -> int {
        self.id as int
    }

    fn primary_key(&self) -> (k: i64) {
        self.id as i64
    }

    fn duplicate(&self) -> (r: Product) {
        Product {
            id: self.id,
            name: self.name.clone(),
            qt_per_unit: self.qt_per_unit.clone(),
            unit_price: self.unit_price,
            units_in_stock: self.units_in_stock,
            units_on_order: self.units_on_order,
            reorder_level: self.reorder_level,
            discontinued: self.discontinued,
            supplier_id: self.supplier_id,
        }
    }
}

impl Row for Order {
    open spec fn key(&self) -> int {
        self.id as int
    }

    fn primary_key(&self) -> (k: i64) {
        self.id as i64
    }

    fn duplicate(&self) -> (r: Order) {
        Order {
            id: self.id,
            order_date: self.order_date,
            required_date: self.required_date,
            shipped_date: self.shipped_date,
            ship_via: self.ship_via,
            freight: self.freight,
            ship_name: self.ship_name.clone(),
            ship_city: self.ship_city.clone(),
            ship_region: clone_text(&self.ship_region),
            ship_postal_code: clone_text(&self.ship_postal_code),
            ship_country: self.ship_country.clone(),
            customer_id: self.customer_id,
            employee_id: self.employee_id,
        }
    }
}

impl Row for OrderLine {
    open spec fn key(&self) -> int {
        self.id as int
    }

    fn primary_key(&self) -> (k: i64) {
        self.id
    }

    fn duplicate(&self) -> (r: OrderLine) {
        OrderLine {
            unit_price: self.unit_price,
            quantity: self.quantity,
            discount: self.discount,
            order_id: self.order_id,
            product_id: self.product_id,
            id: self.id,
        }
    }
}

} // verus!
