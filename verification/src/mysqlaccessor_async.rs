//! The database accessor that works on one connection.

use vstd::prelude::*;
use vstd::string::StringExecFns;
use crate::connection::{attempt_view, Attempt, ConnectionState, ConnectionView};
use crate::mysqlaccessor::{
    MySQLAccessor, MySQLAccessorError, MySQLAccessorErrorType, MySQLAccessorErrorTypeView,
};

verus! {

/// What a driver needs to know in order to connect.
#[derive(Debug, PartialEq, Eq)]
pub struct MySqlConnectSettings {
    pub username: String,
    pub password: String,
    pub host: String,
    pub port: u16,
    pub database: String,
    pub charset: String,
}

/// The mathematical value of a [`MySqlConnectSettings`].
pub struct MySqlConnectSettingsView {
    pub username: Seq<char>,
    pub password: Seq<char>,
    pub host: Seq<char>,
    pub port: u16,
    pub database: Seq<char>,
    pub charset: Seq<char>,
}

impl View for MySqlConnectSettings {
    type V = MySqlConnectSettingsView;

    open spec fn view(&self) -> MySqlConnectSettingsView {
        MySqlConnectSettingsView {
            username: self.username@,
            password: self.password@,
            host: self.host@,
            port: self.port,
            database: self.database@,
            charset: self.charset@,
        }
    }
}

/// What is to be done for a statement.
#[derive(Debug, PartialEq, Eq)]
pub enum SqlStep {
    /// No connection was ever asked for: open one, then ask again.
    OpenFirst,
    /// The connection is open: run the statement and fetch its rows.
    Fetch,
    /// The statement fails with this error.
    Refuse(MySQLAccessorError),
}

/// The mathematical value of a [`SqlStep`].
pub enum SqlStepView {
    OpenFirst,
    Fetch,
    Refuse(MySQLAccessorErrorTypeView),
}

impl View for SqlStep {
    type V = SqlStepView;

    open spec fn view(&self) -> SqlStepView {
        match self {
            SqlStep::OpenFirst => SqlStepView::OpenFirst,
            SqlStep::Fetch => SqlStepView::Fetch,
            SqlStep::Refuse(e) => SqlStepView::Refuse(e@),
        }
    }
}

/// An accessor of the database.
#[derive(Debug)]
pub struct MySQLAccessorAsync<'a, C> {
    host: &'a str,
    port: u16,
    user: &'a str,
    passwd: &'a str,
    db: &'a str,
    charset: &'a str,
    is_open_connection: bool,
    conn: ConnectionState<C>,
}

/// The mathematical value of a [`MySQLAccessorAsync`].
pub struct MySQLAccessorAsyncView<C> {
    pub host: Seq<char>,
    pub port: u16,
    pub user: Seq<char>,
    pub passwd: Seq<char>,
    pub db: Seq<char>,
    pub charset: Seq<char>,
    /// Whether a connection has been asked for, with or without success.
    pub asked_to_open: bool,
    pub conn: ConnectionView<C>,
}

impl<C> MySQLAccessorAsyncView<C> {
    /// The settings to connect with.
    pub open spec fn settings(self) -> MySqlConnectSettingsView {
        MySqlConnectSettingsView {
            username: self.user,
            password: self.passwd,
            host: self.host,
            port: self.port,
            database: self.db,
            charset: self.charset,
        }
    }

    /// What is to be done for a statement: fetch where the connection is
    /// open; open one first where none was ever asked for; refuse with
    /// `ConnNotOpen` where one was asked for and is not there.
    pub open spec fn sql_step(self) -> SqlStepView {
        if self.conn.is_open() {
            SqlStepView::Fetch
        } else if !self.asked_to_open {
            SqlStepView::OpenFirst
        } else {
            SqlStepView::Refuse(MySQLAccessorErrorTypeView::ConnNotOpen)
        }
    }

    /// The accessor after a connection has been asked for. `attempt` tells
    /// how connecting went, where it was tried.
    pub open spec fn opened(self, attempt: Option<Result<C, Seq<char>>>) -> Self {
        MySQLAccessorAsyncView {
            asked_to_open: true,
            conn: match attempt {
                Some(a) => self.conn.settle(a),
                None => self.conn,
            },
            ..self
        }
    }
}

/// The value of an attempt that may not have been made.
pub open spec fn optional_attempt<C>(attempt: Option<Attempt<C>>) -> Option<Result<C, Seq<char>>> {
    match attempt {
        Some(a) => Some(attempt_view(a)),
        None => None,
    }
}

impl<'a, C> View for MySQLAccessorAsync<'a, C> {
    type V = MySQLAccessorAsyncView<C>;

    closed spec fn view(&self) -> MySQLAccessorAsyncView<C> {
        MySQLAccessorAsyncView {
            host: self.host@,
            port: self.port,
            user: self.user@,
            passwd: self.passwd@,
            db: self.db@,
            charset: self.charset@,
            asked_to_open: self.is_open_connection,
            conn: self.conn@,
        }
    }
}

impl<'a, C> MySQLAccessor for MySQLAccessorAsync<'a, C> {
}

impl<'a, C> MySQLAccessorAsync<'a, C> {
    /// An accessor for the database server at `localhost:3308`, user `root`
    /// without a password, no database chosen, character set `utf8`, and no
    /// connection.
    pub fn new() -> (accessor: Self)
        ensures
            accessor@ == (MySQLAccessorAsyncView::<C> {
                host: "localhost"@,
                port: 3308,
                user: "root"@,
                passwd: ""@,
                db: ""@,
                charset: "utf8"@,
                asked_to_open: false,
                conn: ConnectionView::Disconnected,
            }),
    {
        Self {
            host: "localhost",
            port: 3308,
            user: "root",
            passwd: "",
            db: "",
            charset: "utf8",
            is_open_connection: false,
            conn: ConnectionState::Disconnected,
        }
    }

    /// The same accessor for another host.
    pub fn host(self, host: &'a str) -> (accessor: Self)
        ensures
            accessor@ == (MySQLAccessorAsyncView { host: host@, ..self@ }),
    {
        Self { host, ..self }
    }

    /// The same accessor for another port.
    pub fn port(self, port: u16) -> (accessor: Self)
        ensures
            accessor@ == (MySQLAccessorAsyncView { port, ..self@ }),
    {
        Self { port, ..self }
    }

    /// The same accessor for another user.
    pub fn user(self, user: &'a str) -> (accessor: Self)
        ensures
            accessor@ == (MySQLAccessorAsyncView { user: user@, ..self@ }),
    {
        Self { user, ..self }
    }

    /// The same accessor with another password.
    pub fn passwd(self, passwd: &'a str) -> (accessor: Self)
        ensures
            accessor@ == (MySQLAccessorAsyncView { passwd: passwd@, ..self@ }),
    {
        Self { passwd, ..self }
    }

    /// The same accessor for another database.
    pub fn db(self, db: &'a str) -> (accessor: Self)
        ensures
            accessor@ == (MySQLAccessorAsyncView { db: db@, ..self@ }),
    {
        Self { db, ..self }
    }

    /// The same accessor with another character set.
    pub fn charset(self, charset: &'a str) -> (accessor: Self)
        ensures
            accessor@ == (MySQLAccessorAsyncView { charset: charset@, ..self@ }),
    {
        Self { charset, ..self }
    }

    /// The settings to connect with.
    pub fn get_connect_option(&self) -> (settings: MySqlConnectSettings)
        ensures
            settings@ == self@.settings(),
    {
        MySqlConnectSettings {
            username: String::from_str(self.user),
            password: String::from_str(self.passwd),
            host: String::from_str(self.host),
            port: self.port,
            database: String::from_str(self.db),
            charset: String::from_str(self.charset),
        }
    }

    /// Whether a connection has yet to be opened.
    pub fn needs_connection(&self) -> (needed: bool)
        ensures
            needed == !self@.conn.is_open(),
    {
        !self.conn.is_open()
    }

    /// Takes note that a connection was asked for, and of how connecting
    /// went where it was tried. A failed attempt is no error: the accessor
    /// stays without a connection and remembers the cause.
    pub fn open_connection(&mut self, attempt: Option<Attempt<C>>) -> (result: Result<
        (),
        MySQLAccessorError,
    >)
        ensures
            result is Ok,
            final(self)@ == old(self)@.opened(optional_attempt(attempt)),
    {
        self.is_open_connection = true;
        match attempt {
            Some(a) => {
                let mut state = ConnectionState::Disconnected;
                std::mem::swap(&mut self.conn, &mut state);
                self.conn = state.settle(a);
            },
            None => {},
        }
        Ok(())
    }

    /// The error that the last attempt to connect ended in, if it failed:
    /// `OpenConnError` with the cause. The attempt itself reported no error;
    /// this is where the cause can be had.
    pub fn open_error(&self) -> (error: Option<MySQLAccessorError>)
        ensures
            match error {
                Some(e) => self@.conn is Failed && e@ == MySQLAccessorErrorTypeView::OpenConnError(
                    self@.conn->Failed_0,
                ),
                None => !(self@.conn is Failed),
            },
    {
        match self.conn.failure() {
            Some(cause) => Some(
                MySQLAccessorError {
                    err_type: MySQLAccessorErrorType::OpenConnError(String::from_str(cause)),
                },
            ),
            None => None,
        }
    }

    /// The state of the connection.
    pub fn connection(&self) -> (state: &ConnectionState<C>)
        ensures
            state@ == self@.conn,
    {
        &self.conn
    }

    /// The handle of the open connection, to run a statement on it.
    pub fn connection_mut(&mut self) -> (handle: Option<&mut C>)
        ensures
            match handle {
                Some(h) => old(self)@.conn == ConnectionView::Connected(*h) && final(self)@ == (
                MySQLAccessorAsyncView { conn: ConnectionView::Connected(*final(h)), ..old(self)@ }),
                None => !old(self)@.conn.is_open() && final(self)@ == old(self)@,
            },
    {
        self.conn.handle_mut()
    }

    /// Says what is to be done for a statement, as
    /// [`MySQLAccessorAsyncView::sql_step`] has it.
    pub fn do_sql(&self) -> (step: SqlStep)
        ensures
            step@ == self@.sql_step(),
    {
        if self.conn.is_open() {
            SqlStep::Fetch
        } else if !self.is_open_connection {
            SqlStep::OpenFirst
        } else {
            SqlStep::Refuse(MySQLAccessorError { err_type: MySQLAccessorErrorType::ConnNotOpen })
        }
    }
}

/// A statement asks for a connection to be opened at most once: after one
/// was asked for, the statement is either run or refused.
pub proof fn law_statement_opens_at_most_once<C>(
    accessor: MySQLAccessorAsyncView<C>,
    attempt: Option<Result<C, Seq<char>>>,
)
    ensures
        !(accessor.opened(attempt).sql_step() is OpenFirst),
        accessor.opened(attempt).conn.is_open() <==> accessor.opened(attempt).sql_step() is Fetch,
{
}

} // verus!
