//! The key-value store accessor for a connection that runs as an actor and
//! may turn out to be unauthenticated.
//!
//! The accessor holds the settings and the actor's address. A read goes
//! through a [`ReauthGuard`](crate::reauth::ReauthGuard), which authenticates
//! and retries once if the server asks for it.

use vstd::prelude::*;
use vstd::string::StringExecFns;
use crate::command::{Command, CommandView};
use crate::connection::{ConnectionState, ConnectionView};
use crate::decimal::{decimal_chars, unsigned_text};
use crate::reauth::{begin, Next, ReauthGuard};
use crate::redisaccessor::{
    conn_not_open, RedisAccessor, RedisAccessorError, RedisAccessorErrorType,
};
use crate::reply::{acknowledges, is_ok_status, Response, ResponseView};

verus! {

/// An accessor of the key-value store.
#[derive(Debug)]
pub struct RedisAccessorActix<'a, A> {
    host: &'a str,
    port: u16,
    user: &'a str,
    passwd: &'a str,
    db: i64,
    addr: ConnectionState<A>,
}

/// The mathematical value of a [`RedisAccessorActix`].
pub struct RedisAccessorActixView<A> {
    pub host: Seq<char>,
    pub port: u16,
    pub user: Seq<char>,
    pub passwd: Seq<char>,
    pub db: i64,
    pub addr: ConnectionView<A>,
}

impl<'a, A> View for RedisAccessorActix<'a, A> {
    type V = RedisAccessorActixView<A>;

    closed spec fn view(&self) -> RedisAccessorActixView<A> {
        RedisAccessorActixView {
            host: self.host@,
            port: self.port,
            user: self.user@,
            passwd: self.passwd@,
            db: self.db,
            addr: self.addr@,
        }
    }
}

impl<'a, A> RedisAccessor for RedisAccessorActix<'a, A> {
}

/// How an answer to `AUTH` or to `SELECT` is read: `OK` confirms, any other
/// reply does not, and a lost command is `OpenConnError`.
pub open spec fn confirmed(response: ResponseView) -> Result<bool, RedisAccessorError> {
    match response {
        ResponseView::TransportFailure => Err(
            RedisAccessorError { err_type: RedisAccessorErrorType::OpenConnError },
        ),
        ResponseView::Reply(_) => Ok(is_ok_status(response)),
    }
}

impl<'a, A> RedisAccessorActix<'a, A> {
    /// An accessor for the store at `localhost:6380`, namespace 0, without
    /// credentials and without a connection.
    pub fn new() -> (accessor: Self)
        ensures
            accessor@ == (RedisAccessorActixView::<A> {
                host: "localhost"@,
                port: 6380,
                user: ""@,
                passwd: ""@,
                db: 0,
                addr: ConnectionView::Disconnected,
            }),
    {
        Self {
            host: "localhost",
            port: 6380,
            user: "",
            passwd: "",
            db: 0,
            addr: ConnectionState::Disconnected,
        }
    }

    /// The same accessor for another host.
    pub fn host(self, host: &'a str) -> (accessor: Self)
        ensures
            accessor@ == (RedisAccessorActixView { host: host@, ..self@ }),
    {
        Self { host, ..self }
    }

    /// The same accessor for another port.
    pub fn port(self, port: u16) -> (accessor: Self)
        ensures
            accessor@ == (RedisAccessorActixView { port, ..self@ }),
    {
        Self { port, ..self }
    }

    /// The same accessor for another user.
    pub fn user(self, user: &'a str) -> (accessor: Self)
        ensures
            accessor@ == (RedisAccessorActixView { user: user@, ..self@ }),
    {
        Self { user, ..self }
    }

    /// The same accessor with another password.
    pub fn passwd(self, passwd: &'a str) -> (accessor: Self)
        ensures
            accessor@ == (RedisAccessorActixView { passwd: passwd@, ..self@ }),
    {
        Self { passwd, ..self }
    }

    /// The same accessor for another namespace.
    pub fn db(self, db: i64) -> (accessor: Self)
        ensures
            accessor@ == (RedisAccessorActixView { db, ..self@ }),
    {
        Self { db, ..self }
    }

    /// The address to connect to: the host, a colon, the port.
    pub fn address(&self) -> (address: String)
        ensures
            address@ == self@.host + seq![':'] + decimal_chars(self@.port as nat),
    {
        proof {
            reveal_strlit(":");
        }
        let mut address = String::from_str(self.host);
        address.append(":");
        let port = unsigned_text(self.port as u64);
        address.append(port.as_str());
        address
    }

    /// Whether a connection has yet to be opened.
    pub fn needs_connection(&self) -> (needed: bool)
        ensures
            needed == !self@.addr.is_open(),
    {
        !self.addr.is_open()
    }

    /// Takes the address of the connection that was started for this
    /// accessor. An accessor that has one already keeps it.
    pub fn open_connection(&mut self, started: A) -> (result: Result<(), RedisAccessorError>)
        ensures
            result is Ok,
            final(self)@ == (RedisAccessorActixView {
                addr: old(self)@.addr.settle(Ok(started)),
                ..old(self)@
            }),
    {
        let mut state = ConnectionState::Disconnected;
        std::mem::swap(&mut self.addr, &mut state);
        self.addr = state.settle(Ok(started));
        Ok(())
    }

    /// The state of the connection.
    pub fn connection(&self) -> (state: &ConnectionState<A>)
        ensures
            state@ == self@.addr,
    {
        &self.addr
    }

    /// Refuses an operation on a connection that is not open.
    pub fn check_conn_open(&self) -> (result: Result<(), RedisAccessorError>)
        ensures
            result == if self@.addr.is_open() {
                Ok::<(), RedisAccessorError>(())
            } else {
                Err::<(), RedisAccessorError>(conn_not_open())
            },
    {
        if self.addr.is_open() {
            Ok(())
        } else {
            Err(RedisAccessorError { err_type: RedisAccessorErrorType::ConnNotOpen })
        }
    }

    /// The command that authenticates the connection with the accessor's
    /// password.
    pub fn send_auth(&self) -> (result: Result<Command, RedisAccessorError>)
        ensures
            match result {
                Ok(command) => self@.addr.is_open() && command@ == (CommandView::Auth {
                    password: self@.passwd,
                }),
                Err(e) => !self@.addr.is_open() && e == conn_not_open(),
            },
    {
        self.check_conn_open()?;
        Ok(Command::Auth { password: String::from_str(self.passwd) })
    }

    /// The command that selects the accessor's namespace.
    pub fn send_select_db(&self) -> (result: Result<Command, RedisAccessorError>)
        ensures
            match result {
                Ok(command) => self@.addr.is_open() && command@ == (CommandView::Select {
                    index: self@.db as int,
                }),
                Err(e) => !self@.addr.is_open() && e == conn_not_open(),
            },
    {
        self.check_conn_open()?;
        Ok(Command::Select { index: self.db })
    }

    /// Reads the answer to `AUTH` or to `SELECT`, as [`confirmed`] says.
    pub fn confirmation(response: &Response) -> (result: Result<bool, RedisAccessorError>)
        ensures
            result == confirmed(response@),
    {
        match response {
            Response::TransportFailure => Err(
                RedisAccessorError { err_type: RedisAccessorErrorType::OpenConnError },
            ),
            Response::Reply(_) => Ok(acknowledges(response)),
        }
    }

    /// Begins a guarded read of `key`: the first thing to send is `GET key`,
    /// and the guard that comes with it knows the accessor's password and
    /// namespace in case the server asks for authentication.
    pub fn get(&self, key: &str) -> (result: Result<Next, RedisAccessorError>)
        ensures
            match result {
                Ok(next) => self@.addr.is_open() && next@ == begin(
                    CommandView::Get { key: key@ },
                    self@.passwd,
                    self@.db as int,
                ),
                Err(e) => !self@.addr.is_open() && e == conn_not_open(),
            },
    {
        self.check_conn_open()?;
        let command = Command::Get { key: String::from_str(key) };
        Ok(ReauthGuard::start(command, String::from_str(self.passwd), self.db))
    }
}

} // verus!
