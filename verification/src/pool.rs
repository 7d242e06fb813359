//! The connection pool: a bounded set of connections to the backing store
//! that are lent out, taken back, and closed when they grow old.
//!
//! The pool keeps the books; it does not wait. Time is a number of
//! milliseconds that the caller hands in with every call. A caller that
//! finds the pool exhausted is given a ticket and asks again with
//! [`Pool::poll`] until a connection is free or its wait is over.
//!
//! Waiting callers are served first come, first served: a connection that
//! becomes free belongs to the caller that has waited longest and whose
//! wait is not over, and nobody who comes later is served before it.
//!
//! This pool is a reference model. It says what a pool with these limits
//! may do, and the laws at the end of this file are proved of it and of
//! nothing else. A pool of another make need not agree with it in
//! everything: bb8, for one, hands an idle connection to whichever caller
//! asks for it, whether or not others wait already, and so is not first
//! come, first served. What a service that runs on such a pool takes from
//! here is the limits of [`PoolConfig::service`] and the test
//! [`PoolConfig::is_valid`].

use vstd::prelude::*;
use crate::connection::{Connection, ConnectionView};
use crate::store::Database;

verus! {

/// Why the pool did not hand out a connection.
#[derive(Clone, Copy, Debug, PartialEq, Eq)]
pub enum PoolError {
    /// No connection became free before the caller's wait was over.
    PoolExhausted,
    /// A new connection was needed and the store could not be reached.
    ConnectionError,
}

/// The limits of a pool. Times are in milliseconds.
#[derive(Clone, Copy, Debug, PartialEq, Eq)]
pub struct PoolConfig {
    /// The most connections that are open at a time, lent out or idle.
    pub max_size: usize,
    /// The number of idle connections that the pool keeps ready.
    pub min_idle: usize,
    /// How long a caller waits for a connection.
    pub acquire_timeout: u64,
    /// An idle connection is closed once it has been idle for longer.
    pub idle_timeout: u64,
    /// A connection is closed once it has been open for longer.
    pub max_lifetime: u64,
}

impl PoolConfig {
    /// The limits make sense: the pool may hold a connection, it is not
    /// asked to keep more ready than it may hold, and no time is zero.
    pub open spec fn valid(&self) -> bool {
        &&& 1 <= self.max_size
        &&& self.min_idle <= self.max_size
        &&& 0 < self.acquire_timeout
        &&& 0 < self.idle_timeout
        &&& 0 < self.max_lifetime
    }

    /// The limits of the service's pool: at most 128 connections, 16 of
    /// them kept ready, five seconds to wait for one, ten minutes of idling
    /// and thirty minutes of life for each.
    pub open spec fn service_limits() -> PoolConfig {
        PoolConfig {
            max_size: 128,
            min_idle: 16,
            acquire_timeout: 5_000,
            idle_timeout: 600_000,
            max_lifetime: 1_800_000,
        }
    }

    /// The limits of the service's pool.
    pub fn service() -> (config: PoolConfig)
        ensures
            config == PoolConfig::service_limits(),
            config.valid(),
    {
        PoolConfig {
            max_size: 128,
            min_idle: 16,
            acquire_timeout: 5_000,
            idle_timeout: 600_000,
            max_lifetime: 1_800_000,
        }
    }

    /// Whether the limits make sense.
    pub fn is_valid(&self) -> (ok: bool)
        ensures
            ok == self.valid(),
    {
        1 <= self.max_size && self.min_idle <= self.max_size && 0 < self.acquire_timeout && 0
            < self.idle_timeout && 0 < self.max_lifetime
    }

    /// The time at which the wait of a caller that came at `now` is over.
    pub open spec fn deadline(&self, now: u64) -> u64 {
        if now + self.acquire_timeout <= u64::MAX {
            (now + self.acquire_timeout) as u64
        } else {
            u64::MAX
        }
    }

    /// A connection opened at `opened_at` is too old at `now`.
    pub open spec fn outlived(&self, opened_at: u64, now: u64) -> bool {
        now - opened_at > self.max_lifetime
    }

    /// A connection idle since `since` has been idle for too long at `now`.
    pub open spec fn idled_out(&self, since: u64, now: u64) -> bool {
        now - since > self.idle_timeout
    }

    fn deadline_at(&self, now: u64) -> (at: u64)
        ensures
            at == self.deadline(now),
    {
        if now <= u64::MAX - self.acquire_timeout {
            now + self.acquire_timeout
        } else {
            u64::MAX
        }
    }

    fn has_outlived(&self, opened_at: u64, now: u64) -> (stale: bool)
        ensures
            stale == self.outlived(opened_at, now),
    {
        now > opened_at && now - opened_at > self.max_lifetime
    }

    fn has_idled_out(&self, since: u64, now: u64) -> (out: bool)
        ensures
            out == self.idled_out(since, now),
    {
        now > since && now - since > self.idle_timeout
    }
}

/// A caller that waits for a connection.
#[derive(Clone, Copy, Debug, PartialEq, Eq)]
pub struct Waiter {
    /// The ticket the caller was given.
    pub ticket: u64,
    /// The time at which its wait is over.
    pub deadline: u64,
}

/// Some waiter holds the ticket `ticket`.
pub open spec fn queued(waiting: Seq<Waiter>, ticket: u64) -> bool {
    exists|i: int| 0 <= i < waiting.len() && (#[trigger] waiting[i]).ticket == ticket
}

/// The place in the queue of the waiter with the ticket `ticket`.
pub open spec fn place_of(waiting: Seq<Waiter>, ticket: u64) -> int {
    choose|i: int| 0 <= i < waiting.len() && (#[trigger] waiting[i]).ticket == ticket
}

/// Before place `k` of the queue stands a waiter whose wait is not over at
/// `now`.
pub open spec fn live_ahead(waiting: Seq<Waiter>, k: int, now: u64) -> bool {
    exists|j: int| 0 <= j < k && j < waiting.len() && (#[trigger] waiting[j]).deadline > now
}

/// The tickets in the queue ascend: who came first stands first.
pub open spec fn tickets_ascend(waiting: Seq<Waiter>) -> bool {
    forall|i: int, j: int|
        0 <= i < j < waiting.len() ==> (#[trigger] waiting[i]).ticket < (#[trigger] waiting[j]).ticket
}

/// An idle connection and the time since which it has been idle.
pub struct IdleEntry {
    pub conn: ConnectionView,
    pub since: u64,
}

/// What the pool gave a caller: a connection, or a ticket to wait with.
pub enum Acquired<'a> {
    Ready(Connection<'a>),
    Queued(u64),
}

/// What an [`Acquired`] stands for.
pub enum AcquiredView {
    Ready(ConnectionView),
    Queued(u64),
}

impl<'a> View for Acquired<'a> {
    type V = AcquiredView;

    open spec fn view(&self) -> AcquiredView {
        match self {
            Acquired::Ready(conn) => AcquiredView::Ready(conn@),
            Acquired::Queued(ticket) => AcquiredView::Queued(*ticket),
        }
    }
}

/// What the outcome of a call for a connection stands for.
pub open spec fn outcome_of(r: Result<Acquired, PoolError>) -> Result<AcquiredView, PoolError> {
    match r {
        Ok(acquired) => Ok(acquired@),
        Err(e) => Err(e),
    }
}

/// What became of a connection that was given back.
#[derive(Clone, Copy, Debug, PartialEq, Eq)]
pub enum Released {
    /// The connection is idle in the pool again.
    Kept,
    /// The connection was closed: its link is broken or it is too old.
    Discarded,
    /// The pool has lent out nothing, so the connection is not one of its
    /// own. It was closed, and the pool is as it was.
    Foreign,
}

/// What a round of reaping did.
#[derive(Clone, Copy, Debug, PartialEq, Eq)]
pub struct Reaped {
    /// The number of idle connections that were closed.
    pub closed: usize,
    /// The number of connections that were opened to keep `min_idle` ready.
    pub opened: usize,
}

/// The state of a pool.
pub struct PoolState {
    pub config: PoolConfig,
    /// The connection string of the store that the pool opens its
    /// connections to.
    pub url: Seq<char>,
    /// The rows that the pool's connections see.
    pub db: Database,
    /// Whether the store can be reached when a connection is to be opened.
    pub reachable: bool,
    /// The idle connections; the one that has been idle longest is first.
    pub idle: Seq<IdleEntry>,
    /// The number of connections that are lent out.
    pub leased: nat,
    /// The waiting callers; the one that came first is first.
    pub waiting: Seq<Waiter>,
    /// The ticket that the next waiting caller is given.
    pub next_ticket: u64,
}

impl PoolState {
    /// The pool is in order: it holds no more connections than it may, no
    /// idle connection is broken, and the waiting callers stand in the order
    /// of their tickets.
    pub open spec fn wf(self) -> bool {
        &&& self.config.valid()
        &&& self.idle.len() + self.leased <= self.config.max_size
        &&& forall|i: int| 0 <= i < self.idle.len() ==> !(#[trigger] self.idle[i]).conn.broken
        &&& forall|i: int|
            0 <= i < self.waiting.len() ==> (#[trigger] self.waiting[i]).ticket < self.next_ticket
        &&& tickets_ascend(self.waiting)
    }

    /// The number of open connections, lent out or idle.
    pub open spec fn total(self) -> nat {
        self.idle.len() + self.leased
    }

    /// A connection that the pool opens at `now`, as it lies idle.
    pub open spec fn fresh(self, now: u64) -> IdleEntry {
        IdleEntry { conn: ConnectionView::fresh(self.db, now), since: now }
    }

    /// The pool after a call for a connection at `now`, and what the caller
    /// is given.
    ///
    /// Where nobody waits whose wait is not over, the caller is given the
    /// connection that has been idle longest; where none is idle and the
    /// pool may open one more, a new one. Otherwise the caller is given a
    /// ticket and stands last in the queue.
    pub open spec fn acquire(self, now: u64) -> (PoolState, Result<AcquiredView, PoolError>) {
        if !live_ahead(self.waiting, self.waiting.len() as int, now) && self.idle.len() > 0 {
            (
                PoolState { idle: self.idle.drop_first(), leased: self.leased + 1, ..self },
                Ok(AcquiredView::Ready(self.idle[0].conn)),
            )
        } else if !live_ahead(self.waiting, self.waiting.len() as int, now) && self.total()
            < self.config.max_size {
            if self.reachable {
                (
                    PoolState { leased: self.leased + 1, ..self },
                    Ok(AcquiredView::Ready(self.fresh(now).conn)),
                )
            } else {
                (self, Err(PoolError::ConnectionError))
            }
        } else if self.next_ticket == u64::MAX {
            (self, Err(PoolError::PoolExhausted))
        } else {
            (
                PoolState {
                    waiting: self.waiting.push(
                        Waiter { ticket: self.next_ticket, deadline: self.config.deadline(now) },
                    ),
                    next_ticket: (self.next_ticket + 1) as u64,
                    ..self
                },
                Ok(AcquiredView::Queued(self.next_ticket)),
            )
        }
    }

    /// The pool after the caller with the ticket `ticket` asked again at
    /// `now`, and what it is given.
    ///
    /// A caller whose wait is over, or whose ticket the pool does not know,
    /// is told `PoolExhausted` and leaves the queue. A caller before which
    /// another still waits goes on waiting. The first of those that still
    /// wait is given an idle connection or, where the pool may open one, a
    /// new one, and goes on waiting where there is neither.
    pub open spec fn poll(self, ticket: u64, now: u64) -> (PoolState, Result<AcquiredView, PoolError>) {
        let k = place_of(self.waiting, ticket);
        if !queued(self.waiting, ticket) {
            (self, Err(PoolError::PoolExhausted))
        } else if self.waiting[k].deadline <= now {
            (PoolState { waiting: self.waiting.remove(k), ..self }, Err(PoolError::PoolExhausted))
        } else if live_ahead(self.waiting, k, now) {
            (self, Ok(AcquiredView::Queued(ticket)))
        } else if self.idle.len() > 0 {
            (
                PoolState {
                    idle: self.idle.drop_first(),
                    leased: self.leased + 1,
                    waiting: self.waiting.remove(k),
                    ..self
                },
                Ok(AcquiredView::Ready(self.idle[0].conn)),
            )
        } else if self.total() < self.config.max_size {
            if self.reachable {
                (
                    PoolState {
                        leased: self.leased + 1,
                        waiting: self.waiting.remove(k),
                        ..self
                    },
                    Ok(AcquiredView::Ready(self.fresh(now).conn)),
                )
            } else {
                (
                    PoolState { waiting: self.waiting.remove(k), ..self },
                    Err(PoolError::ConnectionError),
                )
            }
        } else {
            (self, Ok(AcquiredView::Queued(ticket)))
        }
    }

    /// The pool after the caller with the ticket `ticket` gave up waiting.
    pub open spec fn cancel(self, ticket: u64) -> PoolState {
        if queued(self.waiting, ticket) {
            PoolState { waiting: self.waiting.remove(place_of(self.waiting, ticket)), ..self }
        } else {
            self
        }
    }

    /// The pool after the connection `conn` was given back at `now`, and
    /// what became of the connection.
    pub open spec fn release(self, conn: ConnectionView, now: u64) -> (PoolState, Released) {
        if self.leased == 0 {
            (self, Released::Foreign)
        } else if conn.broken || self.config.outlived(conn.opened_at, now) {
            (PoolState { leased: (self.leased - 1) as nat, ..self }, Released::Discarded)
        } else {
            (
                PoolState {
                    idle: self.idle.push(IdleEntry { conn, since: now }),
                    leased: (self.leased - 1) as nat,
                    ..self
                },
                Released::Kept,
            )
        }
    }

    /// The idle connection is neither too old nor idle for too long at
    /// `now`.
    pub open spec fn keeps(config: PoolConfig, now: u64) -> spec_fn(IdleEntry) -> bool {
        |entry: IdleEntry|
            !config.idled_out(entry.since, now) && !config.outlived(entry.conn.opened_at, now)
    }

    /// The number of connections that a round of reaping opens after it has
    /// closed all but `kept` idle ones: as many as `min_idle` asks for and
    /// `max_size` allows, none where the store cannot be reached.
    pub open spec fn refill(self, kept: nat) -> nat {
        let wanted = if kept < self.config.min_idle {
            self.config.min_idle - kept
        } else {
            0
        };
        let room = if kept + self.leased < self.config.max_size {
            self.config.max_size - kept - self.leased
        } else {
            0
        };
        if !self.reachable {
            0
        } else if wanted < room {
            wanted as nat
        } else {
            room as nat
        }
    }

    /// The pool after a round of reaping at `now`, and what the round did:
    /// the idle connections that are too old or idle for too long are
    /// closed, then connections are opened to keep `min_idle` ready.
    pub open spec fn reap(self, now: u64) -> (PoolState, Reaped) {
        let kept = self.idle.filter(Self::keeps(self.config, now));
        let opened = self.refill(kept.len());
        (
            PoolState { idle: kept + Seq::new(opened, |i: int| self.fresh(now)), ..self },
            Reaped { closed: (self.idle.len() - kept.len()) as usize, opened: opened as usize },
        )
    }
}

/// Opens connections to the backing store named by a connection string.
pub struct ConnectionManager<'a> {
    url: String,
    db: &'a Database,
    reachable: bool,
}

impl<'a> ConnectionManager<'a> {
    /// The connection string.
    pub closed spec fn url(&self) -> Seq<char> {
        self.url@
    }

    /// The rows that the store holds.
    pub closed spec fn database(&self) -> Database {
        *self.db
    }

    /// The store can be reached.
    pub closed spec fn reachable(&self) -> bool {
        self.reachable
    }

    /// A manager for the store at `database_url`, which holds `db` and can
    /// be reached.
    pub fn new(database_url: &str, db: &'a Database) -> (manager: ConnectionManager<'a>)
        ensures
            manager.url() == database_url@,
            manager.database() == *db,
            manager.reachable(),
    {
        ConnectionManager { url: database_url.to_owned(), db, reachable: true }
    }

    /// The connection string.
    pub fn database_url(&self) -> (url: &str)
        ensures
            url@ == self.url(),
    {
        self.url.as_str()
    }

    /// Whether the store can be reached.
    pub fn is_reachable(&self) -> (b: bool)
        ensures
            b == self.reachable(),
    {
        self.reachable
    }

    /// Says whether the store can be reached from now on.
    pub fn set_reachable(&mut self, reachable: bool)
        ensures
            final(self).reachable() == reachable,
            final(self).url() == old(self).url(),
            final(self).database() == old(self).database(),
    {
        self.reachable = reachable;
    }

    /// Opens a connection at `now`, or fails where the store cannot be
    /// reached.
    pub fn connect(&self, now: u64) -> (r: Result<Connection<'a>, PoolError>)
        ensures
            self.reachable() ==> (r matches Ok(conn) && conn@ == ConnectionView::fresh(
                self.database(),
                now,
            )),
            !self.reachable() ==> (r matches Err(PoolError::ConnectionError)),
    {
        if self.reachable {
            Ok(Connection::open(self.db, now))
        } else {
            Err(PoolError::ConnectionError)
        }
    }
}

struct IdleSlot<'a> {
    conn: Connection<'a>,
    since: u64,
}

/// What the idle slots stand for.
spec fn entries(slots: Seq<IdleSlot>) -> Seq<IdleEntry> {
    Seq::new(slots.len(), |i: int| IdleEntry { conn: slots[i].conn@, since: slots[i].since })
}

/// A pool of connections to the backing store.
pub struct Pool<'a> {
    config: PoolConfig,
    manager: ConnectionManager<'a>,
    idle: Vec<IdleSlot<'a>>,
    leased: usize,
    waiting: Vec<Waiter>,
    next_ticket: u64,
}

impl<'a> View for Pool<'a> {
    type V = PoolState;

    closed spec fn view(&self) -> PoolState {
        PoolState {
            config: self.config,
            url: self.manager.url(),
            db: self.manager.database(),
            reachable: self.manager.reachable(),
            idle: entries(self.idle@),
            leased: self.leased as nat,
            waiting: self.waiting@,
            next_ticket: self.next_ticket,
        }
    }
}

impl<'a> Pool<'a> {
    /// The pool is in order.
    pub open spec fn wf(&self) -> bool {
        self@.wf()
    }

    /// A pool with the limits `config` that opens its connections through
    /// `manager`. It starts with `min_idle` idle connections, opened at
    /// `now`, and fails where it needs one and the store cannot be reached.
    pub fn new(config: PoolConfig, manager: ConnectionManager<'a>, now: u64) -> (r: Result<
        Pool<'a>,
        PoolError,
    >)
        requires
            config.valid(),
        ensures
            manager.reachable() || config.min_idle == 0 ==> (r matches Ok(pool) && pool.wf()
                && pool@ == (PoolState {
                config,
                url: manager.url(),
                db: manager.database(),
                reachable: manager.reachable(),
                idle: Seq::new(
                    config.min_idle as nat,
                    |i: int| IdleEntry { conn: ConnectionView::fresh(manager.database(), now), since: now },
                ),
                leased: 0,
                waiting: Seq::empty(),
                next_ticket: 0,
            })),
            !manager.reachable() && config.min_idle > 0 ==> (r matches Err(
                PoolError::ConnectionError,
            )),
    {
        let mut idle: Vec<IdleSlot<'a>> = Vec::new();
        let mut i: usize = 0;
        while i < config.min_idle
            invariant
                i <= config.min_idle,
                idle@.len() == i,
                i > 0 ==> manager.reachable(),
                forall|j: int|
                    0 <= j < i ==> (#[trigger] idle@[j]).conn@ == ConnectionView::fresh(
                        manager.database(),
                        now,
                    ) && idle@[j].since == now,
            decreases config.min_idle - i,
        {
            match manager.connect(now) {
                Ok(conn) => {
                    idle.push(IdleSlot { conn, since: now });
                },
                Err(e) => {
                    return Err(e);
                },
            }
            i = i + 1;
        }
        let pool = Pool {
            config,
            manager,
            idle,
            leased: 0,
            waiting: Vec::new(),
            next_ticket: 0,
        };
        assert(pool@.idle =~= Seq::new(
            config.min_idle as nat,
            |i: int| IdleEntry { conn: ConnectionView::fresh(manager.database(), now), since: now },
        ));
        Ok(pool)
    }

    /// The connection string of the store that the pool opens its
    /// connections to.
    pub fn database_url(&self) -> (url: &str)
        ensures
            url@ == self@.url,
    {
        self.manager.database_url()
    }

    /// The limits of the pool.
    pub fn config(&self) -> (config: PoolConfig)
        ensures
            config == self@.config,
    {
        self.config
    }

    /// The number of idle connections.
    pub fn idle_count(&self) -> (n: usize)
        ensures
            n == self@.idle.len(),
    {
        self.idle.len()
    }

    /// The number of connections that are lent out.
    pub fn checked_out(&self) -> (n: usize)
        ensures
            n == self@.leased,
    {
        self.leased
    }

    /// The number of callers in the queue.
    pub fn waiting_count(&self) -> (n: usize)
        ensures
            n == self@.waiting.len(),
    {
        self.waiting.len()
    }

    /// Says whether the store can be reached from now on.
    pub fn set_reachable(&mut self, reachable: bool)
        ensures
            final(self)@ == (PoolState { reachable, ..old(self)@ }),
    {
        self.manager.set_reachable(reachable);
    }

    /// Whether a waiter before place `k` still waits at `now`.
    fn any_live_ahead(&self, k: usize, now: u64) -> (live: bool)
        requires
            k <= self@.waiting.len(),
        ensures
            live == live_ahead(self@.waiting, k as int, now),
    {
        let mut j: usize = 0;
        while j < k
            invariant
                j <= k <= self.waiting@.len(),
                forall|i: int| 0 <= i < j ==> (#[trigger] self.waiting@[i]).deadline <= now,
            decreases k - j,
        {
            if self.waiting[j].deadline > now {
                return true;
            }
            j = j + 1;
        }
        false
    }

    /// The place in the queue of the waiter with the ticket `ticket`.
    fn find_waiter(&self, ticket: u64) -> (at: Option<usize>)
        requires
            self.wf(),
        ensures
            at is Some <==> queued(self@.waiting, ticket),
            at matches Some(k) ==> k < self@.waiting.len() && k == place_of(self@.waiting, ticket),
    {
        let mut k: usize = 0;
        while k < self.waiting.len()
            invariant
                k <= self.waiting@.len(),
                tickets_ascend(self.waiting@),
                forall|i: int| 0 <= i < k ==> (#[trigger] self.waiting@[i]).ticket != ticket,
            decreases self.waiting@.len() - k,
        {
            if self.waiting[k].ticket == ticket {
                proof {
                    let c = place_of(self.waiting@, ticket);
                    assert(self.waiting@[k as int].ticket == ticket);
                    if c < k {
                        assert(self.waiting@[c].ticket < self.waiting@[k as int].ticket);
                    } else if k < c {
                        assert(self.waiting@[k as int].ticket < self.waiting@[c].ticket);
                    }
                }
                return Some(k);
            }
            k = k + 1;
        }
        None
    }

    /// Takes the connection that has been idle longest, or opens one at
    /// `now` where none is idle, and books it as lent out.
    fn lend(&mut self, now: u64) -> (r: Result<Connection<'a>, PoolError>)
        requires
            old(self).wf(),
            old(self)@.idle.len() > 0 || old(self)@.total() < old(self)@.config.max_size,
        ensures
            old(self)@.idle.len() > 0 ==> (r matches Ok(conn) && conn@ == old(self)@.idle[0].conn)
                && final(self)@ == (PoolState {
                idle: old(self)@.idle.drop_first(),
                leased: old(self)@.leased + 1,
                ..old(self)@
            }),
            old(self)@.idle.len() == 0 && old(self)@.reachable ==> (r matches Ok(conn) && conn@
                == old(self)@.fresh(now).conn) && final(self)@ == (PoolState {
                leased: old(self)@.leased + 1,
                ..old(self)@
            }),
            old(self)@.idle.len() == 0 && !old(self)@.reachable ==> (r matches Err(
                PoolError::ConnectionError,
            )) && final(self)@ == old(self)@,
    {
        if self.idle.len() > 0 {
            let slot = self.idle.remove(0);
            self.leased = self.leased + 1;
            assert(self@.idle =~= old(self)@.idle.drop_first());
            Ok(slot.conn)
        } else {
            match self.manager.connect(now) {
                Ok(conn) => {
                    self.leased = self.leased + 1;
                    assert(self@.idle =~= old(self)@.idle);
                    Ok(conn)
                },
                Err(e) => Err(e),
            }
        }
    }

    /// Asks for a connection at `now`.
    ///
    /// The caller is given a connection, or a ticket where the pool is
    /// exhausted or others wait already. `ConnectionError` where a new
    /// connection was needed and the store could not be reached;
    /// `PoolExhausted` where the pool has no ticket left to give.
    pub fn acquire(&mut self, now: u64) -> (r: Result<Acquired<'a>, PoolError>)
        requires
            old(self).wf(),
        ensures
            final(self).wf(),
            final(self)@ == old(self)@.acquire(now).0,
            outcome_of(r) == old(self)@.acquire(now).1,
    {
        let served = !self.any_live_ahead(self.waiting.len(), now);
        if served && (self.idle.len() > 0 || self.idle.len() + self.leased < self.config.max_size) {
            match self.lend(now) {
                Ok(conn) => Ok(Acquired::Ready(conn)),
                Err(e) => Err(e),
            }
        } else if self.next_ticket == u64::MAX {
            Err(PoolError::PoolExhausted)
        } else {
            let ticket = self.next_ticket;
            self.waiting.push(Waiter { ticket, deadline: self.config.deadline_at(now) });
            self.next_ticket = ticket + 1;
            assert(self@.idle =~= old(self)@.idle);
            Ok(Acquired::Queued(ticket))
        }
    }

    /// Asks again at `now` for the caller with the ticket `ticket`.
    ///
    /// The caller is given a connection, or its ticket back where it has to
    /// go on waiting. `PoolExhausted` where its wait is over or the pool
    /// does not know the ticket; `ConnectionError` where it was its turn, a
    /// new connection was needed and the store could not be reached. Either
    /// error takes the caller out of the queue.
    pub fn poll(&mut self, ticket: u64, now: u64) -> (r: Result<Acquired<'a>, PoolError>)
        requires
            old(self).wf(),
        ensures
            final(self).wf(),
            final(self)@ == old(self)@.poll(ticket, now).0,
            outcome_of(r) == old(self)@.poll(ticket, now).1,
    {
        let k = match self.find_waiter(ticket) {
            Some(k) => k,
            None => {
                return Err(PoolError::PoolExhausted);
            },
        };
        if self.waiting[k].deadline <= now {
            self.waiting.remove(k);
            assert(self@.idle =~= old(self)@.idle);
            return Err(PoolError::PoolExhausted);
        }
        if self.any_live_ahead(k, now) {
            return Ok(Acquired::Queued(ticket));
        }
        if self.idle.len() > 0 || self.idle.len() + self.leased < self.config.max_size {
            self.waiting.remove(k);
            assert(self@.idle =~= old(self)@.idle);
            match self.lend(now) {
                Ok(conn) => Ok(Acquired::Ready(conn)),
                Err(e) => Err(e),
            }
        } else {
            Ok(Acquired::Queued(ticket))
        }
    }

    /// Takes the caller with the ticket `ticket` out of the queue. A ticket
    /// that the pool does not know changes nothing.
    pub fn cancel(&mut self, ticket: u64)
        requires
            old(self).wf(),
        ensures
            final(self).wf(),
            final(self)@ == old(self)@.cancel(ticket),
    {
        match self.find_waiter(ticket) {
            Some(k) => {
                self.waiting.remove(k);
                assert(self@.idle =~= old(self)@.idle);
            },
            None => {},
        }
    }

    /// Gives the connection `conn` back at `now`.
    ///
    /// A connection whose link is broken, or which is older than
    /// `max_lifetime`, is closed; any other is idle in the pool again, last
    /// among the idle ones.
    pub fn release(&mut self, conn: Connection<'a>, now: u64) -> (released: Released)
        requires
            old(self).wf(),
        ensures
            final(self).wf(),
            final(self)@ == old(self)@.release(conn@, now).0,
            released == old(self)@.release(conn@, now).1,
    {
        if self.leased == 0 {
            Released::Foreign
        } else if conn.is_broken() || self.config.has_outlived(conn.opened_at(), now) {
            self.leased = self.leased - 1;
            assert(self@.idle =~= old(self)@.idle);
            Released::Discarded
        } else {
            self.leased = self.leased - 1;
            self.idle.push(IdleSlot { conn, since: now });
            assert(self@.idle =~= old(self)@.idle.push(IdleEntry { conn: conn@, since: now }));
            Released::Kept
        }
    }

    /// Closes the idle connections that are older than `max_lifetime` or
    /// have been idle for longer than `idle_timeout` at `now`, then opens
    /// connections until `min_idle` are ready, as far as `max_size` allows
    /// and the store can be reached. Nobody waits for this: it touches the
    /// idle connections only.
    pub fn reap(&mut self, now: u64) -> (reaped: Reaped)
        requires
            old(self).wf(),
        ensures
            final(self).wf(),
            final(self)@ == old(self)@.reap(now).0,
            reaped == old(self)@.reap(now).1,
    {
        let ghost orig = self@.idle;
        let ghost keep = PoolState::keeps(self.config, now);
        let before = self.idle.len();
        let mut i: usize = 0;
        let ghost mut j: int = 0;
        proof {
            assert(orig.take(0) =~= Seq::<IdleEntry>::empty());
            Seq::<IdleEntry>::empty().lemma_filter_len(keep);
            assert(orig.skip(0) =~= orig);
            assert forall|x: int| 0 <= x < self.idle@.len() implies !(#[trigger] self.idle@[x]).conn@.broken by {
                assert(!orig[x].conn.broken);
            }
        }
        while i < self.idle.len()
            invariant
                self.config == old(self).config,
                self.manager == old(self).manager,
                self.leased == old(self).leased,
                self.waiting == old(self).waiting,
                self.next_ticket == old(self).next_ticket,
                orig == old(self)@.idle,
                keep == PoolState::keeps(self.config, now),
                0 <= j <= orig.len(),
                i == orig.take(j).filter(keep).len(),
                i <= j,
                entries(self.idle@) == orig.take(j).filter(keep) + orig.skip(j),
                forall|x: int| 0 <= x < self.idle@.len() ==> !(#[trigger] self.idle@[x]).conn@.broken,
            decreases orig.len() - j,
        {
            let ghost current = entries(self.idle@);
            let ghost kept = orig.take(j).filter(keep);
            assert(current.len() == i + (orig.len() - j));
            assert(current[i as int] == orig.skip(j)[0]);
            let stale = self.config.has_idled_out(self.idle[i].since, now)
                || self.config.has_outlived(self.idle[i].conn.opened_at(), now);
            proof {
                assert(orig.take(j + 1) =~= orig.take(j).push(orig[j]));
                orig.take(j).lemma_filter_push(orig[j], keep);
                assert(keep(orig[j]) == !stale);
            }
            if stale {
                self.idle.remove(i);
                assert(entries(self.idle@) =~= current.remove(i as int));
                assert(current.remove(i as int) =~= kept + orig.skip(j + 1));
            } else {
                i = i + 1;
                assert(current =~= kept.push(orig[j]) + orig.skip(j + 1));
            }
            proof {
                j = j + 1;
            }
        }
        proof {
            assert(orig.take(j) =~= orig);
            assert(entries(self.idle@) =~= orig.filter(keep));
            orig.lemma_filter_len(keep);
        }
        let kept = self.idle.len();
        let wanted = if kept < self.config.min_idle {
            self.config.min_idle - kept
        } else {
            0
        };
        let room = if kept + self.leased < self.config.max_size {
            self.config.max_size - kept - self.leased
        } else {
            0
        };
        let opened = if !self.manager.is_reachable() {
            0
        } else if wanted < room {
            wanted
        } else {
            room
        };
        let mut n: usize = 0;
        while n < opened
            invariant
                self.config == old(self).config,
                self.manager == old(self).manager,
                self.leased == old(self).leased,
                self.waiting == old(self).waiting,
                self.next_ticket == old(self).next_ticket,
                n <= opened,
                opened > 0 ==> self.manager.reachable(),
                kept + opened + self.leased <= self.config.max_size,
                self.idle@.len() == kept + n,
                entries(self.idle@) == orig.filter(keep) + Seq::new(
                    n as nat,
                    |x: int| old(self)@.fresh(now),
                ),
                forall|x: int| 0 <= x < self.idle@.len() ==> !(#[trigger] self.idle@[x]).conn@.broken,
            decreases opened - n,
        {
            let ghost ready = entries(self.idle@);
            match self.manager.connect(now) {
                Ok(conn) => {
                    self.idle.push(IdleSlot { conn, since: now });
                },
                Err(_) => {
                    assert(false);
                },
            }
            assert(entries(self.idle@) =~= ready.push(old(self)@.fresh(now)));
            n = n + 1;
            assert(entries(self.idle@) =~= orig.filter(keep) + Seq::new(
                n as nat,
                |x: int| old(self)@.fresh(now),
            ));
        }
        Reaped { closed: before - kept, opened }
    }
}

/// In a queue whose tickets ascend a ticket names one waiter.
pub proof fn lemma_place_is_unique(waiting: Seq<Waiter>, i: int)
    requires
        tickets_ascend(waiting),
        0 <= i < waiting.len(),
    ensures
        queued(waiting, waiting[i].ticket),
        place_of(waiting, waiting[i].ticket) == i,
{
    let c = place_of(waiting, waiting[i].ticket);
    assert(0 <= c < waiting.len() && waiting[c].ticket == waiting[i].ticket);
    if c < i {
        assert(waiting[c].ticket < waiting[i].ticket);
    } else if i < c {
        assert(waiting[i].ticket < waiting[c].ticket);
    }
}

/// Whatever happens to a pool that is in order leaves it in order. So at
/// every moment no more than `max_size` connections are lent out, and no
/// broken connection lies idle.
pub proof fn lemma_pool_stays_in_order(p: PoolState, ticket: u64, conn: ConnectionView, now: u64)
    requires
        p.wf(),
    ensures
        p.leased <= p.config.max_size,
        p.acquire(now).0.wf(),
        p.poll(ticket, now).0.wf(),
        p.cancel(ticket).wf(),
        p.release(conn, now).0.wf(),
        p.reap(now).0.wf(),
{
    let keep = PoolState::keeps(p.config, now);
    let kept = p.idle.filter(keep);
    p.idle.lemma_filter_len(keep);
    let reaped = p.reap(now).0;
    assert forall|i: int| 0 <= i < reaped.idle.len() implies !(#[trigger] reaped.idle[i]).conn.broken by {
        if i < kept.len() {
            assert(kept.contains(kept[i]));
            p.idle.lemma_filter_contains_rev(keep, kept[i]);
            let at = choose|at: int| 0 <= at < p.idle.len() && p.idle[at] == kept[i];
            assert(!p.idle[at].conn.broken);
        }
    }
    if queued(p.waiting, ticket) {
        let k = place_of(p.waiting, ticket);
        let rest = p.waiting.remove(k);
        assert(tickets_ascend(rest)) by {
            assert forall|i: int, j: int| 0 <= i < j < rest.len() implies (#[trigger] rest[i]).ticket
                < (#[trigger] rest[j]).ticket by {
                let a = if i < k { i } else { i + 1 };
                let b = if j < k { j } else { j + 1 };
                assert(p.waiting[a].ticket < p.waiting[b].ticket);
            }
        }
        assert forall|i: int| 0 <= i < rest.len() implies (#[trigger] rest[i]).ticket
            < p.next_ticket by {
            let a = if i < k { i } else { i + 1 };
            assert(p.waiting[a].ticket < p.next_ticket);
        }
    }
    let grown = p.acquire(now).0;
    assert(tickets_ascend(grown.waiting));
    let back = p.release(conn, now).0;
    assert forall|i: int| 0 <= i < back.idle.len() implies !(#[trigger] back.idle[i]).conn.broken by {
        if i < p.idle.len() {
            assert(!p.idle[i].conn.broken);
        }
    }
    if p.idle.len() > 0 {
        let taken = p.idle.drop_first();
        assert forall|i: int| 0 <= i < taken.len() implies !(#[trigger] taken[i]).conn.broken by {
            assert(!p.idle[i + 1].conn.broken);
        }
    }
}

/// A caller that finds every connection lent out is not given one: it is
/// given the next ticket and stands last in the queue, with its wait over
/// `acquire_timeout` after it came. Nothing else changes.
pub proof fn lemma_exhausted_pool_queues(p: PoolState, now: u64)
    requires
        p.wf(),
        p.leased == p.config.max_size,
        p.next_ticket < u64::MAX,
    ensures
        p.acquire(now).1 == Ok::<AcquiredView, PoolError>(AcquiredView::Queued(p.next_ticket)),
        p.acquire(now).0 == (PoolState {
            waiting: p.waiting.push(
                Waiter { ticket: p.next_ticket, deadline: p.config.deadline(now) },
            ),
            next_ticket: (p.next_ticket + 1) as u64,
            ..p
        }),
        queued(p.acquire(now).0.waiting, p.next_ticket),
        place_of(p.acquire(now).0.waiting, p.next_ticket) == p.waiting.len(),
{
    let q = p.acquire(now).0;
    assert(q.waiting[p.waiting.len() as int].ticket == p.next_ticket);
    lemma_pool_stays_in_order(p, 0, ConnectionView::fresh(p.db, now), now);
    lemma_place_is_unique(q.waiting, p.waiting.len() as int);
}

/// While every connection is lent out and none is given back, a waiting
/// caller goes on waiting until its wait is over, and is then told
/// `PoolExhausted`.
pub proof fn lemma_waiter_waits_or_times_out(p: PoolState, ticket: u64, now: u64)
    requires
        p.wf(),
        p.leased == p.config.max_size,
        queued(p.waiting, ticket),
    ensures
        now < p.waiting[place_of(p.waiting, ticket)].deadline ==> p.poll(ticket, now) == (
            p,
            Ok::<AcquiredView, PoolError>(AcquiredView::Queued(ticket)),
        ),
        now >= p.waiting[place_of(p.waiting, ticket)].deadline ==> p.poll(ticket, now).1 == Err::<
            AcquiredView,
            PoolError,
        >(PoolError::PoolExhausted) && !queued(p.poll(ticket, now).0.waiting, ticket),
{
    let k = place_of(p.waiting, ticket);
    if now >= p.waiting[k].deadline {
        let rest = p.waiting.remove(k);
        if queued(rest, ticket) {
            let i = place_of(rest, ticket);
            let a = if i < k { i } else { i + 1 };
            assert(p.waiting[a].ticket == ticket);
            lemma_place_is_unique(p.waiting, a);
        }
    }
}

/// A connection that is given back belongs to the caller that has waited
/// longest: where callers wait and nothing is idle, the first whose wait is
/// not over is given that very connection when it asks again, and nobody
/// is served before it, neither another waiting caller nor one that comes
/// later.
pub proof fn lemma_release_serves_oldest_waiter(
    p: PoolState,
    conn: ConnectionView,
    now: u64,
    ticket: u64,
    later: u64,
    other: u64,
)
    requires
        p.wf(),
        p.idle.len() == 0,
        p.leased > 0,
        !conn.broken,
        !p.config.outlived(conn.opened_at, now),
        queued(p.waiting, ticket),
        p.waiting[place_of(p.waiting, ticket)].deadline > later,
        !live_ahead(p.waiting, place_of(p.waiting, ticket), later),
        other != ticket,
    ensures
        p.release(conn, now).1 == Released::Kept,
        p.release(conn, now).0.poll(ticket, later).1 == Ok::<AcquiredView, PoolError>(
            AcquiredView::Ready(conn),
        ),
        !(p.release(conn, now).0.poll(other, later).1 matches Ok(AcquiredView::Ready(_))),
        !(p.release(conn, now).0.acquire(later).1 matches Ok(AcquiredView::Ready(_))),
{
    let q = p.release(conn, now).0;
    let k = place_of(p.waiting, ticket);
    assert(q.waiting == p.waiting);
    assert(q.idle[0].conn == conn);
    assert(live_ahead(q.waiting, q.waiting.len() as int, later)) by {
        assert(q.waiting[k].deadline > later);
    }
    if queued(q.waiting, other) {
        let o = place_of(q.waiting, other);
        if o < k {
            assert(q.waiting[o].deadline <= later);
        } else {
            assert(q.waiting[k].deadline > later);
            assert(live_ahead(q.waiting, o, later));
        }
    }
}

/// Asking for a connection and giving it back leaves as many connections
/// lent out as before, whatever was done with the connection in between
/// and however the request ended. A connection that came from the idle ones
/// and is still fit to keep brings the number of idle ones back to what it
/// was.
pub proof fn lemma_release_undoes_acquire(
    p: PoolState,
    now: u64,
    given_back: ConnectionView,
    later: u64,
)
    requires
        p.wf(),
        p.acquire(now).1 is Ok,
        p.acquire(now).1->Ok_0 is Ready,
    ensures
        p.acquire(now).0.leased == p.leased + 1,
        p.acquire(now).0.release(given_back, later).1 != Released::Foreign,
        p.acquire(now).0.release(given_back, later).0.leased == p.leased,
        p.idle.len() > 0 && p.acquire(now).0.release(given_back, later).1 == Released::Kept
            ==> p.acquire(now).0.release(given_back, later).0.idle.len() == p.idle.len(),
        p.acquire(now).0.release(given_back, later).0.idle.len() <= p.idle.len() + 1,
{
}

} // verus!
