//! A connection to the backing store, and the statements it can run.
//!
//! The connection here is part of the reference model: it sees the rows of
//! a [`Database`] in memory and keeps a record of the statements sent over
//! it. The kinds of failure in [`QueryError`] are shared with callers that
//! talk to a store of their own.

use vstd::prelude::*;
use crate::store::Database;

verus! {

/// The parameterized statements of the catalog. Every operation runs one of
/// them, except the order with its lines and their products, which runs two:
/// `OrderById`, then `OrderLinesWithProducts`.
#[derive(Clone, Copy, Debug, PartialEq, Eq)]
pub enum Statement {
    CustomersPage,
    CustomerById,
    CustomerSearch,
    EmployeesPage,
    EmployeeWithRecipient,
    SuppliersPage,
    SupplierById,
    ProductsPage,
    ProductWithSupplier,
    ProductSearch,
    OrdersWithDetailsPage,
    OrderWithDetailsById,
    OrderById,
    OrderLinesWithProducts,
}

/// Why the backing store did not answer a statement.
#[derive(Clone, Copy, Debug, PartialEq, Eq)]
pub enum QueryError {
    /// The link to the store is broken. The statement was not sent.
    ConnectionLost,
    /// The statement asked for rows from a negative offset on.
    NegativeOffset,
    /// The statement asked for a negative number of rows.
    NegativeLimit,
    /// The search term is not a well-formed search expression.
    MalformedSearch,
    /// A count or a sum of quantities does not fit in 64 bits.
    OutOfRange,
    /// The store refused the statement for a reason that is none of the
    /// above. The connections of this crate never answer so; a caller that
    /// sends its statements to a store of its own sorts what that store
    /// reports into this kind where no other fits.
    Refused,
}

/// The answer to a statement: its rows, or the reason there are none.
/// Finding no row is an answer, not an error.
pub type QueryResult<T> = Result<T, QueryError>;

/// A connection to the backing store: the rows it sees, whether its link
/// still stands, when it was opened, and the statements sent over it.
pub struct Connection<'a> {
    db: &'a Database,
    opened_at: u64,
    broken: bool,
    issued: Vec<Statement>,
}

/// What a [`Connection`] stands for.
pub struct ConnectionView {
    /// The rows that the connection sees.
    pub db: Database,
    /// When the connection was opened, in milliseconds.
    pub opened_at: u64,
    /// The link to the store is broken.
    pub broken: bool,
    /// The statements sent over the connection, oldest first.
    pub issued: Seq<Statement>,
}

impl ConnectionView {
    /// A connection opened at `now` over which nothing has been sent yet.
    pub open spec fn fresh(db: Database, now: u64) -> ConnectionView {
        ConnectionView { db, opened_at: now, broken: false, issued: Seq::empty() }
    }

    /// The connection after the statements `sent` went over it, in that
    /// order.
    pub open spec fn after(self, sent: Seq<Statement>) -> ConnectionView {
        ConnectionView { issued: self.issued + sent, ..self }
    }

    /// The connection after its link broke.
    pub open spec fn severed(self) -> ConnectionView {
        ConnectionView { broken: true, ..self }
    }
}

impl<'a> View for Connection<'a> {
    type V = ConnectionView;

    closed spec fn view(&self) -> ConnectionView {
        ConnectionView {
            db: *self.db,
            opened_at: self.opened_at,
            broken: self.broken,
            issued: self.issued@,
        }
    }
}

impl<'a> Connection<'a> {
    /// A connection opened at `now` over which nothing has been sent yet.
    pub fn open(db: &'a Database, now: u64) -> (conn: Connection<'a>)
        ensures
            conn@ == ConnectionView::fresh(*db, now),
    {
        Connection { db, opened_at: now, broken: false, issued: Vec::new() }
    }

    /// The rows that the connection sees.
    pub fn db(&self) -> (db: &'a Database)
        ensures
            *db == self@.db,
    {
        self.db
    }

    /// When the connection was opened, in milliseconds.
    pub fn opened_at(&self) -> (at: u64)
        ensures
            at == self@.opened_at,
    {
        self.opened_at
    }

    /// Whether the link to the store is broken.
    pub fn is_broken(&self) -> (b: bool)
        ensures
            b == self@.broken,
    {
        self.broken
    }

    /// The number of statements sent over the connection.
    pub fn statements_sent(&self) -> (n: usize)
        ensures
            n == self@.issued.len(),
    {
        self.issued.len()
    }

    /// The statement sent as number `i`, counting from zero.
    pub fn statement(&self, i: usize) -> (s: Statement)
        requires
            i < self@.issued.len(),
        ensures
            s == self@.issued[i as int],
    {
        self.issued[i]
    }

    /// Breaks the link. From now on the connection answers every statement
    /// with `ConnectionLost`.
    pub fn sever(&mut self)
        ensures
            final(self)@ == old(self)@.severed(),
    {
        self.broken = true;
    }

    /// Sends `statement` to the store. Over a broken link nothing is sent.
    pub fn send(&mut self, statement: Statement) -> (sent: QueryResult<()>)
        ensures
            old(self)@.broken ==> (sent matches Err(QueryError::ConnectionLost)) && final(self)@
                == old(self)@,
            !old(self)@.broken ==> sent is Ok && final(self)@ == old(self)@.after(seq![statement]),
    {
        if self.broken {
            Err(QueryError::ConnectionLost)
        } else {
            self.issued.push(statement);
            assert(self.issued@ =~= old(self).issued@ + seq![statement]);
            Ok(())
        }
    }
}

} // verus!
