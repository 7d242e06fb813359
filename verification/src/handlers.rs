//! The request handlers: each takes a connection from the pool, runs one
//! operation of the catalog over it, gives the connection back and turns
//! the outcome into a reply.
//!
//! A handler never holds a connection when it returns. It gives back the
//! one it was lent on every path, also where the operation failed.
//!
//! The handlers run on the pool and the connections of the reference
//! model. What a service with a pool and a store of its own takes from
//! here is how a request's parameters and outcome are read: the defaults of
//! a page ([`LimitOffset`]), the kind of a failure ([`ErrorKind`]) and the
//! reply to an outcome ([`reply_rows`], [`reply_row`],
//! [`reply_pool_failure`]).

use vstd::prelude::*;
use crate::connection::{Connection, ConnectionView, QueryError, QueryResult, Statement};
use crate::models::{Customer, Employee, Product, Supplier};
use crate::pool::{Acquired, AcquiredView, Pool, PoolError, PoolState};
use crate::queries::{
    customers_found, employee_and_recipient, order_summaries, order_summary,
    order_with_details, p1, p10, p11, p12, p13, p2, p3, p4, p5, p6, p7, p8, p9, paged,
    product_and_supplier, products_found, summaries_in, CustomerSearchResult,
    EmployeeWithRecipient, OrderWithDetailsAndProducts, P11Row, ProductSearchResult,
    ProductWithSupplier, TextMatch,
};
use crate::store::{has_key, lookup, Database};

verus! {

/// The number of rows of a page where the request names none.
pub const DEFAULT_LIMIT: i64 = 100;

/// The place a page starts at where the request names none.
pub const DEFAULT_OFFSET: i64 = 0;

/// The kinds of failure of the service.
#[derive(Clone, Copy, Debug, PartialEq, Eq)]
pub enum ErrorKind {
    /// No connection became free in time.
    PoolExhausted,
    /// The store cannot be reached, or the link to it broke.
    ConnectionError,
    /// The store refused the statement.
    QueryError,
}

impl ErrorKind {
    /// The kind of a failure of the pool.
    pub open spec fn of_pool(e: PoolError) -> ErrorKind {
        match e {
            PoolError::PoolExhausted => ErrorKind::PoolExhausted,
            PoolError::ConnectionError => ErrorKind::ConnectionError,
        }
    }

    /// The kind of a failure of a statement: a lost link is a connection
    /// error, everything else is the statement's own fault.
    pub open spec fn of_query(e: QueryError) -> ErrorKind {
        match e {
            QueryError::ConnectionLost => ErrorKind::ConnectionError,
            _ => ErrorKind::QueryError,
        }
    }

    /// Trying again may help: the pool may have a connection by then and
    /// the store may be back, but a refused statement stays refused.
    pub open spec fn retryable(self) -> bool {
        self != ErrorKind::QueryError
    }

    /// The kind of a failure of the pool.
    pub fn from_pool(e: PoolError) -> (kind: ErrorKind)
        ensures
            kind == ErrorKind::of_pool(e),
    {
        match e {
            PoolError::PoolExhausted => ErrorKind::PoolExhausted,
            PoolError::ConnectionError => ErrorKind::ConnectionError,
        }
    }

    /// The kind of a failure of a statement.
    pub fn from_query(e: QueryError) -> (kind: ErrorKind)
        ensures
            kind == ErrorKind::of_query(e),
    {
        match e {
            QueryError::ConnectionLost => ErrorKind::ConnectionError,
            _ => ErrorKind::QueryError,
        }
    }

    /// Whether trying again may help.
    pub fn is_retryable(self) -> (b: bool)
        ensures
            b == self.retryable(),
    {
        match self {
            ErrorKind::QueryError => false,
            _ => true,
        }
    }

    /// The status that a failure of this kind is answered with: every kind
    /// is a server error.
    pub fn status(self) -> (status: StatusCode)
        ensures
            status == StatusCode::InternalServerError,
    {
        StatusCode::InternalServerError
    }
}

/// The status of a reply.
#[derive(Clone, Copy, Debug, PartialEq, Eq)]
pub enum StatusCode {
    Success,
    InternalServerError,
}

impl StatusCode {
    /// The number of the status.
    pub open spec fn code(self) -> u16 {
        match self {
            StatusCode::Success => 200,
            StatusCode::InternalServerError => 500,
        }
    }

    /// The number of the status.
    pub fn as_u16(self) -> (code: u16)
        ensures
            code == self.code(),
    {
        match self {
            StatusCode::Success => 200,
            StatusCode::InternalServerError => 500,
        }
    }
}

/// What a handler answers.
#[derive(Debug, PartialEq)]
pub enum Reply<T> {
    /// The payload, to be sent with the status `Success`. Rows that were not
    /// found are a payload too: an absent row or an empty list.
    Ready(T),
    /// No payload: the request failed with this status.
    Failed(StatusCode),
    /// The pool is exhausted. The request holds this ticket and is to be
    /// handed in again with it.
    Wait(u64),
}

impl<T> Reply<T> {
    /// The status that the reply is sent with, where it is sent.
    pub fn status(&self) -> (status: Option<StatusCode>)
        ensures
            status == match self {
                Reply::Ready(_) => Some(StatusCode::Success),
                Reply::Failed(s) => Some(*s),
                Reply::Wait(_) => None,
            },
    {
        match self {
            Reply::Ready(_) => Some(StatusCode::Success),
            Reply::Failed(s) => Some(*s),
            Reply::Wait(_) => None,
        }
    }
}

/// The parameters of a request for a page.
#[derive(Clone, Copy, Debug, PartialEq, Eq)]
pub struct LimitOffset {
    pub limit: Option<i64>,
    pub offset: Option<i64>,
}

impl LimitOffset {
    /// The number of rows asked for: `DEFAULT_LIMIT` where none is named.
    pub open spec fn limit_or_default(self) -> i64 {
        match self.limit {
            Some(limit) => limit,
            None => DEFAULT_LIMIT,
        }
    }

    /// The place the page starts at: `DEFAULT_OFFSET` where none is named.
    pub open spec fn offset_or_default(self) -> i64 {
        match self.offset {
            Some(offset) => offset,
            None => DEFAULT_OFFSET,
        }
    }

    /// The number of rows asked for.
    pub fn limit(&self) -> (limit: i64)
        ensures
            limit == self.limit_or_default(),
    {
        match self.limit {
            Some(limit) => limit,
            None => DEFAULT_LIMIT,
        }
    }

    /// The place the page starts at.
    pub fn offset(&self) -> (offset: i64)
        ensures
            offset == self.offset_or_default(),
    {
        match self.offset {
            Some(offset) => offset,
            None => DEFAULT_OFFSET,
        }
    }
}

/// The parameter of a request for one row.
#[derive(Clone, Copy, Debug, PartialEq, Eq)]
pub struct IdParam {
    pub id: i32,
}

/// What the pool makes of a request at `now`: one that comes for the first
/// time asks for a connection, one that holds a ticket asks again with it.
pub open spec fn admission(p: PoolState, ticket: Option<u64>, now: u64) -> (
    PoolState,
    Result<AcquiredView, PoolError>,
) {
    match ticket {
        Some(ticket) => p.poll(ticket, now),
        None => p.acquire(now),
    }
}

/// The pool after a request at `now` whose operation sent the statements
/// `sent`: where the request was lent a connection, the connection is
/// given back with the statements on its record; otherwise the pool is as
/// the request's call for a connection left it.
pub open spec fn settled(p: PoolState, ticket: Option<u64>, now: u64, sent: Seq<Statement>) -> PoolState {
    match admission(p, ticket, now).1 {
        Ok(AcquiredView::Ready(conn)) => admission(p, ticket, now).0.release(conn.after(sent), now).0,
        _ => admission(p, ticket, now).0,
    }
}

/// The reply to a request that was not lent a connection: a failure of the
/// pool is a server error, a ticket is handed on.
pub open spec fn turned_away<T>(reply: Reply<T>, admitted: Result<AcquiredView, PoolError>) -> bool {
    match admitted {
        Err(_) => reply matches Reply::Failed(StatusCode::InternalServerError),
        Ok(AcquiredView::Queued(ticket)) => reply matches Reply::Wait(t) && t == ticket,
        Ok(AcquiredView::Ready(_)) => true,
    }
}

/// The reply carries the rows `expected`, or is a server error where
/// `expected` is an error.
pub open spec fn replies_rows<R>(reply: Reply<Vec<R>>, expected: Result<Seq<R>, QueryError>) -> bool {
    match expected {
        Ok(rows) => reply matches Reply::Ready(v) && v@ == rows,
        Err(_) => reply matches Reply::Failed(StatusCode::InternalServerError),
    }
}

/// The reply carries the row `expected`, or `None` where there is none.
pub open spec fn replies_row<T>(reply: Reply<Option<T>>, expected: Option<T>) -> bool {
    reply matches Reply::Ready(row) && row == expected
}

/// Asks the pool for a connection for a request at `now`.
fn checkout<'a>(pool: &mut Pool<'a>, ticket: Option<u64>, now: u64) -> (r: Result<
    Acquired<'a>,
    PoolError,
>)
    requires
        old(pool).wf(),
    ensures
        final(pool).wf(),
        final(pool)@ == admission(old(pool)@, ticket, now).0,
        crate::pool::outcome_of(r) == admission(old(pool)@, ticket, now).1,
        r matches Ok(Acquired::Ready(conn)) ==> !conn@.broken,
{
    match ticket {
        Some(ticket) => pool.poll(ticket, now),
        None => pool.acquire(now),
    }
}

/// The reply to a query's answer that holds rows: the rows, or a server
/// error whatever the failure.
pub fn reply_rows<R>(answer: QueryResult<Vec<R>>) -> (reply: Reply<Vec<R>>)
    ensures
        match answer {
            Ok(rows) => reply matches Reply::Ready(v) && v == rows,
            Err(_) => reply matches Reply::Failed(StatusCode::InternalServerError),
        },
{
    match answer {
        Ok(rows) => Reply::Ready(rows),
        Err(e) => Reply::Failed(ErrorKind::from_query(e).status()),
    }
}

/// The reply to a query's answer that holds one row or none: the row or
/// `None`, or a server error whatever the failure.
pub fn reply_row<T>(answer: QueryResult<Option<T>>) -> (reply: Reply<Option<T>>)
    ensures
        match answer {
            Ok(row) => reply matches Reply::Ready(v) && v == row,
            Err(_) => reply matches Reply::Failed(StatusCode::InternalServerError),
        },
{
    match answer {
        Ok(row) => Reply::Ready(row),
        Err(e) => Reply::Failed(ErrorKind::from_query(e).status()),
    }
}

/// The reply to a request that the pool failed: a server error, whatever
/// the failure.
pub fn reply_pool_failure<T>(e: PoolError) -> (reply: Reply<T>)
    ensures
        reply matches Reply::Failed(StatusCode::InternalServerError),
{
    Reply::Failed(ErrorKind::from_pool(e).status())
}

/// The reply to a request that was not lent a connection.
fn reply_unserved<'a, T>(admitted: Result<Acquired<'a>, PoolError>) -> (reply: Reply<T>)
    requires
        !(admitted matches Ok(Acquired::Ready(_))),
    ensures
        turned_away(reply, crate::pool::outcome_of(admitted)),
{
    match admitted {
        Ok(Acquired::Queued(ticket)) => Reply::Wait(ticket),
        Ok(Acquired::Ready(_)) => Reply::Failed(StatusCode::InternalServerError),
        Err(e) => reply_pool_failure(e),
    }
}

/// A page of customers. `limit` is 100 and `offset` 0 where the request
/// names none.
pub fn get_customers<'a>(
    pool: &mut Pool<'a>,
    ticket: Option<u64>,
    params: &LimitOffset,
    now: u64,
) -> (reply: Reply<Vec<Customer>>)
    requires
        old(pool).wf(),
    ensures
        final(pool).wf(),
        final(pool)@ == settled(old(pool)@, ticket, now, seq![Statement::CustomersPage]),
        turned_away(reply, admission(old(pool)@, ticket, now).1),
        admission(old(pool)@, ticket, now).1 matches Ok(AcquiredView::Ready(conn)) ==> replies_rows(
            reply,
            paged(
                conn.db.customers@,
                params.limit_or_default() as int,
                params.offset_or_default() as int,
            ),
        ),
{
    match checkout(pool, ticket, now) {
        Ok(Acquired::Ready(mut conn)) => {
            let answer = p1(&mut conn, params.limit(), params.offset());
            pool.release(conn, now);
            reply_rows(answer)
        },
        unserved => reply_unserved(unserved),
    }
}

/// The customer with the request's id, or `None` where there is none.
pub fn get_customer_by_id<'a>(
    pool: &mut Pool<'a>,
    ticket: Option<u64>,
    params: &IdParam,
    now: u64,
) -> (reply: Reply<Option<Customer>>)
    requires
        old(pool).wf(),
    ensures
        final(pool).wf(),
        final(pool)@ == settled(old(pool)@, ticket, now, seq![Statement::CustomerById]),
        turned_away(reply, admission(old(pool)@, ticket, now).1),
        admission(old(pool)@, ticket, now).1 matches Ok(AcquiredView::Ready(conn)) ==> replies_row(
            reply,
            lookup(conn.db.customers@, params.id as int),
        ),
{
    match checkout(pool, ticket, now) {
        Ok(Acquired::Ready(mut conn)) => {
            let answer = p2(&mut conn, params.id);
            pool.release(conn, now);
            reply_row(answer)
        },
        unserved => reply_unserved(unserved),
    }
}

/// The customers whose company name matches a search term. `found` is what the store's
/// full-text search made of the request's term; a malformed term is a
/// server error.
pub fn search_customer<'a>(
    pool: &mut Pool<'a>,
    ticket: Option<u64>,
    found: &TextMatch,
    now: u64,
) -> (reply: Reply<Vec<CustomerSearchResult>>)
    requires
        old(pool).wf(),
    ensures
        final(pool).wf(),
        final(pool)@ == settled(old(pool)@, ticket, now, seq![Statement::CustomerSearch]),
        turned_away(reply, admission(old(pool)@, ticket, now).1),
        admission(old(pool)@, ticket, now).1 matches Ok(AcquiredView::Ready(conn)) ==> replies_rows(
            reply,
            customers_found(conn.db.customers@, *found),
        ),
{
    match checkout(pool, ticket, now) {
        Ok(Acquired::Ready(mut conn)) => {
            let answer = p3(&mut conn, found);
            pool.release(conn, now);
            reply_rows(answer)
        },
        unserved => reply_unserved(unserved),
    }
}

/// A page of employees. `limit` is 100 and `offset` 0 where the request
/// names none.
pub fn get_employees<'a>(
    pool: &mut Pool<'a>,
    ticket: Option<u64>,
    params: &LimitOffset,
    now: u64,
) -> (reply: Reply<Vec<Employee>>)
    requires
        old(pool).wf(),
    ensures
        final(pool).wf(),
        final(pool)@ == settled(old(pool)@, ticket, now, seq![Statement::EmployeesPage]),
        turned_away(reply, admission(old(pool)@, ticket, now).1),
        admission(old(pool)@, ticket, now).1 matches Ok(AcquiredView::Ready(conn)) ==> replies_rows(
            reply,
            paged(
                conn.db.employees@,
                params.limit_or_default() as int,
                params.offset_or_default() as int,
            ),
        ),
{
    match checkout(pool, ticket, now) {
        Ok(Acquired::Ready(mut conn)) => {
            let answer = p4(&mut conn, params.limit(), params.offset());
            pool.release(conn, now);
            reply_rows(answer)
        },
        unserved => reply_unserved(unserved),
    }
}

/// The employee with the request's id and the employee it reports to, or
/// `None` where no employee has the id.
pub fn get_employee_with_recipient<'a>(
    pool: &mut Pool<'a>,
    ticket: Option<u64>,
    params: &IdParam,
    now: u64,
) -> (reply: Reply<Option<EmployeeWithRecipient>>)
    requires
        old(pool).wf(),
    ensures
        final(pool).wf(),
        final(pool)@ == settled(old(pool)@, ticket, now, seq![Statement::EmployeeWithRecipient]),
        turned_away(reply, admission(old(pool)@, ticket, now).1),
        admission(old(pool)@, ticket, now).1 matches Ok(AcquiredView::Ready(conn)) ==> replies_row(
            reply,
            employee_and_recipient(conn.db.employees@, params.id as int),
        ),
{
    match checkout(pool, ticket, now) {
        Ok(Acquired::Ready(mut conn)) => {
            let answer = p5(&mut conn, params.id);
            pool.release(conn, now);
            reply_row(answer)
        },
        unserved => reply_unserved(unserved),
    }
}

/// A page of suppliers. `limit` is 100 and `offset` 0 where the request
/// names none.
pub fn get_suppliers<'a>(
    pool: &mut Pool<'a>,
    ticket: Option<u64>,
    params: &LimitOffset,
    now: u64,
) -> (reply: Reply<Vec<Supplier>>)
    requires
        old(pool).wf(),
    ensures
        final(pool).wf(),
        final(pool)@ == settled(old(pool)@, ticket, now, seq![Statement::SuppliersPage]),
        turned_away(reply, admission(old(pool)@, ticket, now).1),
        admission(old(pool)@, ticket, now).1 matches Ok(AcquiredView::Ready(conn)) ==> replies_rows(
            reply,
            paged(
                conn.db.suppliers@,
                params.limit_or_default() as int,
                params.offset_or_default() as int,
            ),
        ),
{
    match checkout(pool, ticket, now) {
        Ok(Acquired::Ready(mut conn)) => {
            let answer = p6(&mut conn, params.limit(), params.offset());
            pool.release(conn, now);
            reply_rows(answer)
        },
        unserved => reply_unserved(unserved),
    }
}

/// The supplier with the request's id, or `None` where there is none.
pub fn get_supplier_by_id<'a>(
    pool: &mut Pool<'a>,
    ticket: Option<u64>,
    params: &IdParam,
    now: u64,
) -> (reply: Reply<Option<Supplier>>)
    requires
        old(pool).wf(),
    ensures
        final(pool).wf(),
        final(pool)@ == settled(old(pool)@, ticket, now, seq![Statement::SupplierById]),
        turned_away(reply, admission(old(pool)@, ticket, now).1),
        admission(old(pool)@, ticket, now).1 matches Ok(AcquiredView::Ready(conn)) ==> replies_row(
            reply,
            lookup(conn.db.suppliers@, params.id as int),
        ),
{
    match checkout(pool, ticket, now) {
        Ok(Acquired::Ready(mut conn)) => {
            let answer = p7(&mut conn, params.id);
            pool.release(conn, now);
            reply_row(answer)
        },
        unserved => reply_unserved(unserved),
    }
}

/// A page of products. `limit` is 100 and `offset` 0 where the request
/// names none.
pub fn get_products<'a>(
    pool: &mut Pool<'a>,
    ticket: Option<u64>,
    params: &LimitOffset,
    now: u64,
) -> (reply: Reply<Vec<Product>>)
    requires
        old(pool).wf(),
    ensures
        final(pool).wf(),
        final(pool)@ == settled(old(pool)@, ticket, now, seq![Statement::ProductsPage]),
        turned_away(reply, admission(old(pool)@, ticket, now).1),
        admission(old(pool)@, ticket, now).1 matches Ok(AcquiredView::Ready(conn)) ==> replies_rows(
            reply,
            paged(
                conn.db.products@,
                params.limit_or_default() as int,
                params.offset_or_default() as int,
            ),
        ),
{
    match checkout(pool, ticket, now) {
        Ok(Acquired::Ready(mut conn)) => {
            let answer = p8(&mut conn, params.limit(), params.offset());
            pool.release(conn, now);
            reply_rows(answer)
        },
        unserved => reply_unserved(unserved),
    }
}

/// The product with the request's id and its supplier, or `None` where no
/// product has the id or its supplier does not exist.
pub fn get_product_with_supplier<'a>(
    pool: &mut Pool<'a>,
    ticket: Option<u64>,
    params: &IdParam,
    now: u64,
) -> (reply: Reply<Option<ProductWithSupplier>>)
    requires
        old(pool).wf(),
    ensures
        final(pool).wf(),
        final(pool)@ == settled(old(pool)@, ticket, now, seq![Statement::ProductWithSupplier]),
        turned_away(reply, admission(old(pool)@, ticket, now).1),
        admission(old(pool)@, ticket, now).1 matches Ok(AcquiredView::Ready(conn)) ==> replies_row(
            reply,
            product_and_supplier(conn.db.products@, conn.db.suppliers@, params.id as int),
        ),
{
    match checkout(pool, ticket, now) {
        Ok(Acquired::Ready(mut conn)) => {
            let answer = p9(&mut conn, params.id);
            pool.release(conn, now);
            reply_row(answer)
        },
        unserved => reply_unserved(unserved),
    }
}

/// The products whose name matches a search term. `found` is what the store's
/// full-text search made of the request's term; a malformed term is a
/// server error.
pub fn search_product<'a>(
    pool: &mut Pool<'a>,
    ticket: Option<u64>,
    found: &TextMatch,
    now: u64,
) -> (reply: Reply<Vec<ProductSearchResult>>)
    requires
        old(pool).wf(),
    ensures
        final(pool).wf(),
        final(pool)@ == settled(old(pool)@, ticket, now, seq![Statement::ProductSearch]),
        turned_away(reply, admission(old(pool)@, ticket, now).1),
        admission(old(pool)@, ticket, now).1 matches Ok(AcquiredView::Ready(conn)) ==> replies_rows(
            reply,
            products_found(conn.db.products@, *found),
        ),
{
    match checkout(pool, ticket, now) {
        Ok(Acquired::Ready(mut conn)) => {
            let answer = p10(&mut conn, found);
            pool.release(conn, now);
            reply_rows(answer)
        },
        unserved => reply_unserved(unserved),
    }
}

/// A page of orders, each with the summary of its lines. `limit` is 100
/// and `offset` 0 where the request names none.
pub fn get_orders_with_details<'a>(
    pool: &mut Pool<'a>,
    ticket: Option<u64>,
    params: &LimitOffset,
    now: u64,
) -> (reply: Reply<Vec<P11Row>>)
    requires
        old(pool).wf(),
    ensures
        final(pool).wf(),
        final(pool)@ == settled(old(pool)@, ticket, now, seq![Statement::OrdersWithDetailsPage]),
        turned_away(reply, admission(old(pool)@, ticket, now).1),
        admission(old(pool)@, ticket, now).1 matches Ok(AcquiredView::Ready(conn))
            ==> match order_summaries(
            conn.db.orders@,
            conn.db.order_details@,
            params.limit_or_default() as int,
            params.offset_or_default() as int,
        ) {
            Ok(found) => reply matches Reply::Ready(rows) && summaries_in(rows@) == found,
            Err(_) => reply matches Reply::Failed(StatusCode::InternalServerError),
        },
{
    match checkout(pool, ticket, now) {
        Ok(Acquired::Ready(mut conn)) => {
            let answer = p11(&mut conn, params.limit(), params.offset());
            pool.release(conn, now);
            reply_rows(answer)
        },
        unserved => reply_unserved(unserved),
    }
}

/// The order with the request's id and the summary of its lines, or `None`
/// where no order has the id.
pub fn get_order_with_details<'a>(
    pool: &mut Pool<'a>,
    ticket: Option<u64>,
    params: &IdParam,
    now: u64,
) -> (reply: Reply<Option<P11Row>>)
    requires
        old(pool).wf(),
    ensures
        final(pool).wf(),
        final(pool)@ == settled(old(pool)@, ticket, now, seq![Statement::OrderWithDetailsById]),
        turned_away(reply, admission(old(pool)@, ticket, now).1),
        admission(old(pool)@, ticket, now).1 matches Ok(AcquiredView::Ready(conn))
            ==> match order_summary(conn.db.orders@, conn.db.order_details@, params.id as int) {
            Ok(Some(found)) => reply matches Reply::Ready(Some(row)) && row@ == found,
            Ok(None) => reply matches Reply::Ready(None),
            Err(_) => reply matches Reply::Failed(StatusCode::InternalServerError),
        },
{
    match checkout(pool, ticket, now) {
        Ok(Acquired::Ready(mut conn)) => {
            let answer = p12(&mut conn, params.id);
            pool.release(conn, now);
            reply_row(answer)
        },
        unserved => reply_unserved(unserved),
    }
}

/// The statements that go over the connection for an order with its lines
/// and their products: the second only where the order exists.
pub open spec fn order_statements(db: Database, id: int) -> Seq<Statement> {
    if has_key(db.orders@, id) {
        seq![Statement::OrderById, Statement::OrderLinesWithProducts]
    } else {
        seq![Statement::OrderById]
    }
}

/// The order with the request's id, its lines and their products, or `None`
/// where no order has the id.
pub fn get_order_with_details_and_products<'a>(
    pool: &mut Pool<'a>,
    ticket: Option<u64>,
    params: &IdParam,
    now: u64,
) -> (reply: Reply<Option<OrderWithDetailsAndProducts>>)
    requires
        old(pool).wf(),
    ensures
        final(pool).wf(),
        turned_away(reply, admission(old(pool)@, ticket, now).1),
        match admission(old(pool)@, ticket, now).1 {
            Ok(AcquiredView::Ready(conn)) => final(pool)@ == settled(
                old(pool)@,
                ticket,
                now,
                order_statements(conn.db, params.id as int),
            ) && match order_with_details(
                conn.db.orders@,
                conn.db.order_details@,
                conn.db.products@,
                params.id as int,
            ) {
                Some(found) => reply matches Reply::Ready(Some(row)) && row@ == found,
                None => reply matches Reply::Ready(None),
            },
            _ => final(pool)@ == admission(old(pool)@, ticket, now).0,
        },
{
    match checkout(pool, ticket, now) {
        Ok(Acquired::Ready(mut conn)) => {
            let answer = p13(&mut conn, params.id);
            pool.release(conn, now);
            reply_row(answer)
        },
        unserved => reply_unserved(unserved),
    }
}

/// What a request holds of the pool while it is under way.
pub enum Held<'a> {
    /// Nothing: the request has not asked for a connection yet, or has
    /// given it back.
    Nothing,
    /// A ticket: the request waits for a connection.
    Ticket(u64),
    /// A connection that the pool lent it.
    Lease(Connection<'a>),
}

/// The pool after a request that held `held` was dropped at `now`.
pub open spec fn abandoned(p: PoolState, held: Held, now: u64) -> PoolState {
    match held {
        Held::Nothing => p,
        Held::Ticket(ticket) => p.cancel(ticket),
        Held::Lease(conn) => p.release(conn@, now).0,
    }
}

/// Drops a request at `now`, whatever it was doing: a request that was
/// cancelled, that timed out or that failed. What it holds of the pool goes
/// back: a connection is given back, once, and a ticket leaves the queue.
pub fn abandon<'a>(pool: &mut Pool<'a>, held: Held<'a>, now: u64)
    requires
        old(pool).wf(),
    ensures
        final(pool).wf(),
        final(pool)@ == abandoned(old(pool)@, held, now),
{
    match held {
        Held::Nothing => {},
        Held::Ticket(ticket) => {
            pool.cancel(ticket);
        },
        Held::Lease(conn) => {
            let _ = pool.release(conn, now);
        },
    }
}

/// A handler never keeps a connection: when it returns, as many connections
/// are lent out as before it was called, whether the operation succeeded,
/// failed or never ran, and whatever statements went over the connection.
pub proof fn lemma_handler_gives_connection_back(
    p: PoolState,
    ticket: Option<u64>,
    now: u64,
    sent: Seq<Statement>,
)
    requires
        p.wf(),
    ensures
        settled(p, ticket, now, sent).leased == p.leased,
        settled(p, ticket, now, sent).wf(),
        admission(p, ticket, now).1 matches Ok(AcquiredView::Ready(conn)) ==> admission(
            p,
            ticket,
            now,
        ).0.leased == p.leased + 1 && !conn.broken,
{
    let t = match ticket {
        Some(t) => t,
        None => 0,
    };
    let admitted = admission(p, ticket, now);
    match admitted.1 {
        Ok(AcquiredView::Ready(conn)) => {
            crate::pool::lemma_pool_stays_in_order(p, t, conn.after(sent), now);
            crate::pool::lemma_pool_stays_in_order(admitted.0, t, conn.after(sent), now);
            if p.idle.len() > 0 {
                assert(!p.idle[0].conn.broken);
            }
        },
        _ => {
            crate::pool::lemma_pool_stays_in_order(p, t, ConnectionView::fresh(p.db, now), now);
        },
    }
}

/// A request that was lent a connection and is dropped before it is done
/// gives the connection back all the same: as many connections are lent
/// out afterwards as before the request came.
pub proof fn lemma_dropped_request_leaks_nothing(p: PoolState, conn: Connection, now: u64, later: u64)
    requires
        p.wf(),
        p.acquire(now).1 is Ok,
        p.acquire(now).1->Ok_0 is Ready,
    ensures
        abandoned(p.acquire(now).0, Held::Lease(conn), later).leased == p.leased,
        abandoned(p.acquire(now).0, Held::Lease(conn), later).idle.len() <= p.idle.len() + 1,
{
    crate::pool::lemma_release_undoes_acquire(p, now, conn@, later);
}

} // verus!
