//! The core of a read-only query service over a sales-order schema.
//!
//! Two kinds of code live here.
//!
//! The first is what a running service takes from this crate as it is: the
//! rows and the shapes of the answers ([`models`], [`queries`]), the
//! defaults of a page, the kinds of failure and the replies they are
//! answered with ([`handlers`]), the step between the two statements of an
//! order with its lines ([`queries::after_order_fetch`]), the limits of the
//! pool ([`pool::PoolConfig::service`]) and the warm-up of the CPU readings
//! ([`stats`]).
//!
//! The second is a reference model of the rest: tables in memory
//! ([`store`]), connections that record what is sent over them
//! ([`connection`]), the catalog evaluated on those tables ([`queries`]), a
//! pool that keeps its books without waiting ([`pool`]) and handlers over
//! the two ([`handlers`]). The model says what every operation answers and
//! what the pool may do, and its laws are proved of it. A service that
//! sends its statements to a database and waits on a pool of its own does
//! not run the model: it is held against it.
//!
//! Nothing here touches a socket, a clock or the host. Time is a number of
//! milliseconds that the caller hands in.

use vstd::prelude::*;
use vstd::pervasive::unreached;
use crate::connection::ConnectionView;
use crate::pool::{ConnectionManager, IdleEntry, Pool, PoolConfig, PoolState, Waiter};
use crate::store::Database;

pub mod values;
pub mod models;
pub mod store;
pub mod connection;
pub mod queries;
pub mod pool;
pub mod handlers;
pub mod stats;

verus! {

/// The pool of connections to the store.
pub type DbPool<'a> = Pool<'a>;

/// The reference pool for the store at `database_url`, which holds `db`:
/// a pool for that connection string with the service's limits and its
/// first 16 connections, opened at `now`, idle; nothing lent out and nobody
/// waiting.
pub fn establish_connection_pool<'a>(
    database_url: &str,
    db: &'a Database,
    now: u64,
) -> (pool: DbPool<'a>)
    ensures
        pool.wf(),
        pool@ == (PoolState {
            config: PoolConfig::service_limits(),
            url: database_url@,
            db: *db,
            reachable: true,
            idle: Seq::new(
                16,
                |i: int| IdleEntry { conn: ConnectionView::fresh(*db, now), since: now },
            ),
            leased: 0,
            waiting: Seq::<Waiter>::empty(),
            next_ticket: 0,
        }),
{
    let config = PoolConfig::service();
    let manager = ConnectionManager::new(database_url, db);
    match Pool::new(config, manager, now) {
        Ok(pool) => pool,
        Err(_) => unreached(),
    }
}

} // verus!
