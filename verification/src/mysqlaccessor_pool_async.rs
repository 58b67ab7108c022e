//! The database accessor that works on a pool of connections.

use vstd::prelude::*;
use vstd::string::StringExecFns;
use crate::connection::{attempt_view, Attempt, ConnectionState, ConnectionView};
use crate::mysqlaccessor::{
    MySQLAccessor, MySQLAccessorError, MySQLAccessorErrorType, MySQLAccessorErrorTypeView,
};
use crate::mysqlaccessor_async::{MySqlConnectSettings, MySqlConnectSettingsView};

verus! {

/// The number of connections that a pool holds at most.
pub const MAX_POOL_CONNECTIONS: u32 = 2;

/// An accessor of the database.
#[derive(Debug, Clone)]
pub struct MySQLAccessorPoolAsync<'a, P> {
    host: &'a str,
    port: u16,
    user: &'a str,
    passwd: &'a str,
    db: &'a str,
    charset: &'a str,
    conn_pool: ConnectionState<P>,
}

/// The mathematical value of a [`MySQLAccessorPoolAsync`].
pub struct MySQLAccessorPoolAsyncView<P> {
    pub host: Seq<char>,
    pub port: u16,
    pub user: Seq<char>,
    pub passwd: Seq<char>,
    pub db: Seq<char>,
    pub charset: Seq<char>,
    pub pool: ConnectionView<P>,
}

impl<P> MySQLAccessorPoolAsyncView<P> {
    /// The settings to connect with.
    pub open spec fn settings(self) -> MySqlConnectSettingsView {
        MySqlConnectSettingsView {
            username: self.user,
            password: self.passwd,
            host: self.host,
            port: self.port,
            database: self.db,
            charset: self.charset,
        }
    }
}

impl<'a, P> View for MySQLAccessorPoolAsync<'a, P> {
    type V = MySQLAccessorPoolAsyncView<P>;

    closed spec fn view(&self) -> MySQLAccessorPoolAsyncView<P> {
        MySQLAccessorPoolAsyncView {
            host: self.host@,
            port: self.port,
            user: self.user@,
            passwd: self.passwd@,
            db: self.db@,
            charset: self.charset@,
            pool: self.conn_pool@,
        }
    }
}

impl<'a, P> MySQLAccessor for MySQLAccessorPoolAsync<'a, P> {
}

impl<'a, P> MySQLAccessorPoolAsync<'a, P> {
    /// An accessor for the database server at `localhost:3308`, user `root`
    /// without a password, no database chosen, character set `utf8`, and no
    /// pool.
    pub fn new() -> (accessor: Self)
        ensures
            accessor@ == (MySQLAccessorPoolAsyncView::<P> {
                host: "localhost"@,
                port: 3308,
                user: "root"@,
                passwd: ""@,
                db: ""@,
                charset: "utf8"@,
                pool: ConnectionView::Disconnected,
            }),
    {
        Self {
            host: "localhost",
            port: 3308,
            user: "root",
            passwd: "",
            db: "",
            charset: "utf8",
            conn_pool: ConnectionState::Disconnected,
        }
    }

    /// The same accessor for another host.
    pub fn host(self, host: &'a str) -> (accessor: Self)
        ensures
            accessor@ == (MySQLAccessorPoolAsyncView { host: host@, ..self@ }),
    {
        Self { host, ..self }
    }

    /// The same accessor for another port.
    pub fn port(self, port: u16) -> (accessor: Self)
        ensures
            accessor@ == (MySQLAccessorPoolAsyncView { port, ..self@ }),
    {
        Self { port, ..self }
    }

    /// The same accessor for another user.
    pub fn user(self, user: &'a str) -> (accessor: Self)
        ensures
            accessor@ == (MySQLAccessorPoolAsyncView { user: user@, ..self@ }),
    {
        Self { user, ..self }
    }

    /// The same accessor with another password.
    pub fn passwd(self, passwd: &'a str) -> (accessor: Self)
        ensures
            accessor@ == (MySQLAccessorPoolAsyncView { passwd: passwd@, ..self@ }),
    {
        Self { passwd, ..self }
    }

    /// The same accessor for another database.
    pub fn db(self, db: &'a str) -> (accessor: Self)
        ensures
            accessor@ == (MySQLAccessorPoolAsyncView { db: db@, ..self@ }),
    {
        Self { db, ..self }
    }

    /// The same accessor with another character set.
    pub fn charset(self, charset: &'a str) -> (accessor: Self)
        ensures
            accessor@ == (MySQLAccessorPoolAsyncView { charset: charset@, ..self@ }),
    {
        Self { charset, ..self }
    }

    /// The settings to connect with.
    pub fn get_connect_option(&self) -> (settings: MySqlConnectSettings)
        ensures
            settings@ == self@.settings(),
    {
        MySqlConnectSettings {
            username: String::from_str(self.user),
            password: String::from_str(self.passwd),
            host: String::from_str(self.host),
            port: self.port,
            database: String::from_str(self.db),
            charset: String::from_str(self.charset),
        }
    }

    /// Whether a pool has yet to be opened.
    pub fn needs_connection(&self) -> (needed: bool)
        ensures
            needed == !self@.pool.is_open(),
    {
        !self.conn_pool.is_open()
    }

    /// Takes note of how opening a pool went. An accessor that has a pool
    /// keeps it. A failed attempt is no error: the accessor stays without a
    /// pool and remembers the cause.
    pub fn open_connection(&mut self, attempt: Attempt<P>) -> (result: Result<
        (),
        MySQLAccessorError,
    >)
        ensures
            result is Ok,
            final(self)@ == (MySQLAccessorPoolAsyncView {
                pool: old(self)@.pool.settle(attempt_view(attempt)),
                ..old(self)@
            }),
    {
        let mut state = ConnectionState::Disconnected;
        std::mem::swap(&mut self.conn_pool, &mut state);
        self.conn_pool = state.settle(attempt);
        Ok(())
    }

    /// The error that the last attempt to connect ended in, if it failed:
    /// `OpenConnError` with the cause. The attempt itself reported no error;
    /// this is where the cause can be had.
    pub fn open_error(&self) -> (error: Option<MySQLAccessorError>)
        ensures
            match error {
                Some(e) => self@.pool is Failed && e@ == MySQLAccessorErrorTypeView::OpenConnError(
                    self@.pool->Failed_0,
                ),
                None => !(self@.pool is Failed),
            },
    {
        match self.conn_pool.failure() {
            Some(cause) => Some(
                MySQLAccessorError {
                    err_type: MySQLAccessorErrorType::OpenConnError(String::from_str(cause)),
                },
            ),
            None => None,
        }
    }

    /// The state of the pool.
    pub fn connection(&self) -> (state: &ConnectionState<P>)
        ensures
            state@ == self@.pool,
    {
        &self.conn_pool
    }

    /// Admits a statement iff the pool is open; otherwise the statement
    /// fails with `ConnNotOpen`.
    pub fn do_sql(&self) -> (result: Result<(), MySQLAccessorError>)
        ensures
            match result {
                Ok(_) => self@.pool.is_open(),
                Err(e) => !self@.pool.is_open() && e@ == MySQLAccessorErrorTypeView::ConnNotOpen,
            },
    {
        if self.conn_pool.is_open() {
            Ok(())
        } else {
            Err(MySQLAccessorError { err_type: MySQLAccessorErrorType::ConnNotOpen })
        }
    }
}

} // verus!
