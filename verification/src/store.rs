//! Tables in primary-key order and the database they make up.
//!
//! This is the store of the reference model: rows in memory, on which the
//! catalog is evaluated. It stands for the rows that a database holds, not
//! for the database.

use vstd::prelude::*;
use crate::models::{Customer, Employee, Order, OrderLine, Product, Row, Supplier};

verus! {

/// The keys of `rows` ascend strictly: no key occurs twice, and a row with
/// a smaller key stands before one with a larger key.
pub open spec fn ascending<R: Row>(rows: Seq<R>) -> bool {
    forall|i: int, j: int|
        0 <= i < j < rows.len() ==> #[trigger] rows[i].key() < #[trigger] rows[j].key()
}

/// Some row of `rows` has the key `key`.
pub open spec fn has_key<R: Row>(rows: Seq<R>, key: int) -> bool {
    exists|i: int| 0 <= i < rows.len() && #[trigger] rows[i].key() == key
}

/// The place of a row with the key `key` in `rows`, where there is one.
pub open spec fn index_of<R: Row>(rows: Seq<R>, key: int) -> int {
    choose|i: int| 0 <= i < rows.len() && #[trigger] rows[i].key() == key
}

/// The row with the key `key`, or `None` where no row has it.
pub open spec fn lookup<R: Row>(rows: Seq<R>, key: int) -> Option<R> {
    if has_key(rows, key) {
        Some(rows[index_of(rows, key)])
    } else {
        None
    }
}

/// The rows `[offset, offset + limit)` of `rows`, as far as they exist.
pub open spec fn page_of<R>(rows: Seq<R>, limit: int, offset: int) -> Seq<R>
    recommends
        0 <= limit,
        0 <= offset,
{
    let from = if offset < rows.len() { offset } else { rows.len() as int };
    let to = if offset + limit < rows.len() { offset + limit } else { rows.len() as int };
    rows.subrange(from, to)
}

/// In rows with ascending keys a key names at most one row: whichever row
/// has the key is the one that `lookup` finds.
pub proof fn lemma_lookup_unique<R: Row>(rows: Seq<R>, i: int)
    requires
        ascending(rows),
        0 <= i < rows.len(),
    ensures
        has_key(rows, rows[i].key()),
        index_of(rows, rows[i].key()) == i,
        lookup(rows, rows[i].key()) == Some(rows[i]),
{
    let key = rows[i].key();
    let j = index_of(rows, key);
    assert(0 <= j < rows.len() && rows[j].key() == key);
    if j < i {
        assert(rows[j].key() < rows[i].key());
    } else if i < j {
        assert(rows[i].key() < rows[j].key());
    }
}

/// A lookup by key finds the one row that has the key, and nothing where
/// no row has it: never a second row, never a row with another key.
pub proof fn lemma_lookup_finds_the_row<R: Row>(rows: Seq<R>, key: int)
    requires
        ascending(rows),
    ensures
        match lookup(rows, key) {
            Some(row) => row.key() == key && forall|i: int|
                0 <= i < rows.len() ==> ((#[trigger] rows[i]).key() == key <==> rows[i] == row),
            None => forall|i: int| 0 <= i < rows.len() ==> (#[trigger] rows[i]).key() != key,
        },
{
    if has_key(rows, key) {
        let at = index_of(rows, key);
        assert forall|i: int| 0 <= i < rows.len() implies ((#[trigger] rows[i]).key() == key
            <==> rows[i] == rows[at]) by {
            if rows[i].key() == key {
                lemma_lookup_unique(rows, i);
            }
        }
    }
}

/// A page holds at most `limit` rows, they are the rows of the table from
/// place `offset` on, and their keys ascend as the table's do.
pub proof fn lemma_page_is_window<R: Row>(rows: Seq<R>, limit: int, offset: int)
    requires
        ascending(rows),
        0 <= limit,
        0 <= offset,
    ensures
        page_of(rows, limit, offset).len() <= limit,
        page_of(rows, limit, offset).len() == if offset >= rows.len() {
            0
        } else if offset + limit <= rows.len() {
            limit
        } else {
            rows.len() - offset
        },
        forall|i: int|
            0 <= i < page_of(rows, limit, offset).len() ==> #[trigger] page_of(
                rows,
                limit,
                offset,
            )[i] == rows[offset + i],
        ascending(page_of(rows, limit, offset)),
{
    let page = page_of(rows, limit, offset);
    assert forall|i: int, j: int| 0 <= i < j < page.len() implies #[trigger] page[i].key()
        < #[trigger] page[j].key() by {
        assert(page[i] == rows[offset + i]);
        assert(page[j] == rows[offset + j]);
    }
}

/// A table: rows with distinct primary keys, kept in ascending key order.
pub struct Table<R: Row> {
    rows: Vec<R>,
}

impl<R: Row> View for Table<R> {
    type V = Seq<R>;

    /// The rows of the table in ascending key order.
    closed spec fn view(&self) -> Seq<R> {
        self.rows@
    }
}

impl<R: Row> Table<R> {
    #[verifier::type_invariant]
    spec fn keys_ascend(&self) -> bool {
        ascending(self.rows@)
    }

    /// The empty table.
    pub fn new() -> (t: Table<R>)
        ensures
            t@ == Seq::<R>::empty(),
    {
        Table { rows: Vec::new() }
    }

    /// The number of rows.
    pub fn len(&self) -> (n: usize)
        ensures
            n == self@.len(),
            ascending(self@),
    {
        proof {
            use_type_invariant(self);
        }
        self.rows.len()
    }

    /// The row at place `i` in key order.
    pub fn row(&self, i: usize) -> (r: &R)
        requires
            i < self@.len(),
        ensures
            *r == self@[i as int],
            ascending(self@),
    {
        proof {
            use_type_invariant(self);
        }
        &self.rows[i]
    }

    /// The number of rows whose key is below `key`, which is the place where
    /// a row with that key stands or would be put.
    fn rank(&self, key: i64) -> (p: usize)
        ensures
            p <= self@.len(),
            forall|i: int| 0 <= i < p ==> (#[trigger] self@[i]).key() < key,
            forall|i: int| p <= i < self@.len() ==> (#[trigger] self@[i]).key() >= key,
    {
        proof {
            use_type_invariant(self);
        }
        let mut low: usize = 0;
        let mut high: usize = self.rows.len();
        while low < high
            invariant
                low <= high <= self.rows@.len(),
                ascending(self.rows@),
                forall|i: int| 0 <= i < low ==> (#[trigger] self.rows@[i]).key() < key,
                forall|i: int| high <= i < self.rows@.len() ==> (#[trigger] self.rows@[i]).key() >= key,
            decreases high - low,
        {
            let mid: usize = low + (high - low) / 2;
            if self.rows[mid].primary_key() < key {
                low = mid + 1;
            } else {
                high = mid;
            }
        }
        low
    }

    /// The place of the row with the key `key`.
    pub fn find(&self, key: i64) -> (at: Option<usize>)
        ensures
            ascending(self@),
            at is Some <==> has_key(self@, key as int),
            at matches Some(i) ==> i < self@.len() && i == index_of(self@, key as int),
    {
        proof {
            use_type_invariant(self);
        }
        let p = self.rank(key);
        if p < self.rows.len() && self.rows[p].primary_key() == key {
            proof {
                lemma_lookup_unique(self@, p as int);
            }
            Some(p)
        } else {
            None
        }
    }

    /// A copy of the row with the key `key`.
    pub fn get(&self, key: i64) -> (r: Option<R>)
        ensures
            ascending(self@),
            r == lookup(self@, key as int),
    {
        match self.find(key) {
            Some(i) => Some(self.rows[i].duplicate()),
            None => None,
        }
    }

    /// Puts `row` into the table at its place in key order. A row whose key
    /// the table already holds is refused, and the table stays as it was.
    pub fn insert(&mut self, row: R) -> (added: bool)
        ensures
            added == !has_key(old(self)@, row.key()),
            !added ==> final(self)@ == old(self)@,
            added ==> exists|p: int|
                0 <= p <= old(self)@.len() && final(self)@ == old(self)@.insert(p, row),
            ascending(final(self)@),
    {
        proof {
            use_type_invariant(&*self);
        }
        let key = row.primary_key();
        let p = self.rank(key);
        if p < self.rows.len() && self.rows[p].primary_key() == key {
            false
        } else {
            let ghost before = self.rows@;
            let mut rows: Vec<R> = Vec::new();
            std::mem::swap(&mut self.rows, &mut rows);
            rows.insert(p, row);
            proof {
                let after = rows@;
                assert forall|i: int, j: int| 0 <= i < j < after.len() implies #[trigger] after[i].key()
                    < #[trigger] after[j].key() by {
                    if j < p {
                        assert(after[i] == before[i] && after[j] == before[j]);
                    } else if j == p {
                        assert(after[i] == before[i]);
                    } else if i < p {
                        assert(after[i] == before[i] && after[j] == before[j - 1]);
                    } else if i == p {
                        assert(after[j] == before[j - 1]);
                    } else {
                        assert(after[i] == before[i - 1] && after[j] == before[j - 1]);
                    }
                }
                assert(!has_key(before, key as int)) by {
                    if has_key(before, key as int) {
                        let i = index_of(before, key as int);
                        assert(before[i].key() == key);
                    }
                }
            }
            std::mem::swap(&mut self.rows, &mut rows);
            true
        }
    }

    /// Copies of the rows `[offset, offset + limit)` of the table, as far as
    /// they exist.
    pub fn page(&self, limit: usize, offset: usize) -> (rows: Vec<R>)
        ensures
            ascending(self@),
            self@.len() <= usize::MAX,
            rows@ == page_of(self@, limit as int, offset as int),
    {
        proof {
            use_type_invariant(self);
        }
        let n = self.rows.len();
        let from = if offset < n { offset } else { n };
        let to = if limit < n - from { from + limit } else { n };
        let mut rows: Vec<R> = Vec::new();
        let mut i = from;
        while i < to
            invariant
                from <= i <= to <= n,
                n == self.rows@.len(),
                rows@ == self.rows@.subrange(from as int, i as int),
            decreases to - i,
        {
            rows.push(self.rows[i].duplicate());
            i = i + 1;
        }
        rows
    }
}

/// The rows that a connection to the backing store can see.
pub struct Database {
    pub customers: Table<Customer>,
    pub employees: Table<Employee>,
    pub suppliers: Table<Supplier>,
    pub products: Table<Product>,
    pub orders: Table<Order>,
    pub order_details: Table<OrderLine>,
}

impl Database {
    /// A database whose tables are all empty.
    pub fn new() -> (db: Database)
        ensures
            db.customers@.len() == 0,
            db.employees@.len() == 0,
            db.suppliers@.len() == 0,
            db.products@.len() == 0,
            db.orders@.len() == 0,
            db.order_details@.len() == 0,
    {
        Database {
            customers: Table::new(),
            employees: Table::new(),
            suppliers: Table::new(),
            products: Table::new(),
            orders: Table::new(),
            order_details: Table::new(),
        }
    }
}

} // verus!
