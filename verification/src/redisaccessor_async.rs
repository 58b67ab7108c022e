//! The key-value store accessor for a client that takes commands and
//! pipelines in the `redis` client's form.
//!
//! The accessor holds the settings and the connection's handle. Its
//! operations check that the connection is open and say what is to be sent;
//! sending is left to whoever holds the transport.

use vstd::prelude::*;
use vstd::string::StringExecFns;
use crate::command::{clone_fields, Command, CommandView};
use crate::connection::{attempt_view, Attempt, ConnectionState, ConnectionView};
use crate::pipeline::{
    entry_views, expansion_of, BatchEntry, BatchEntryView, CommandPipeline, Dispatch,
};
use crate::redisaccessor::{
    conn_not_open, RedisAccessor, RedisAccessorError, RedisAccessorErrorType,
};

verus! {

/// What a client needs to know in order to connect.
#[derive(Debug, PartialEq, Eq)]
pub struct RedisConnectionSettings {
    pub host: String,
    pub port: u16,
    pub db: i64,
    /// The user to authenticate as, where one is set.
    pub username: Option<String>,
    /// The password to authenticate with, where one is set.
    pub passwd: Option<String>,
}

/// The text of a setting that may be absent.
pub open spec fn optional_text(text: Option<String>) -> Option<Seq<char>> {
    match text {
        Some(t) => Some(t@),
        None => None,
    }
}

/// A setting that counts as absent when it is empty.
pub open spec fn unless_empty(text: Seq<char>) -> Option<Seq<char>> {
    if text.len() == 0 {
        None
    } else {
        Some(text)
    }
}

/// What came of opening a connection.
#[derive(Debug)]
pub enum Opening<C> {
    /// The client refused the settings; no connection was tried.
    Refused,
    /// A connection was tried, and this is how it went.
    Tried(Attempt<C>),
}

/// What an accessor does with a batch: nothing where the batch is empty, one
/// round trip with the batch's pipeline otherwise.
pub enum DispatchView {
    Nothing,
    RoundTrip(Seq<CommandView>),
}

/// The value of a [`Dispatch`].
pub open spec fn dispatch_view(dispatch: Dispatch) -> DispatchView {
    match dispatch {
        Dispatch::Nothing => DispatchView::Nothing,
        Dispatch::RoundTrip(pipeline) => DispatchView::RoundTrip(pipeline@),
    }
}

/// How a batch of entries is dispatched.
pub open spec fn batch_dispatch(entries: Seq<BatchEntryView>) -> DispatchView {
    if entries.len() == 0 {
        DispatchView::Nothing
    } else {
        DispatchView::RoundTrip(expansion_of(entries))
    }
}

/// The batch that stores each value under its key with an expiry.
pub open spec fn setex_entries(dataset: Seq<(Seq<char>, Seq<char>, usize)>) -> Seq<BatchEntryView> {
    dataset.map_values(
        |d: (Seq<char>, Seq<char>, usize)|
            BatchEntryView::SetEx { key: d.0, value: d.1, seconds: d.2 as nat },
    )
}

/// The batch that stores each value under its key unless the key is there.
pub open spec fn setnx_entries(dataset: Seq<(Seq<char>, Seq<char>)>) -> Seq<BatchEntryView> {
    dataset.map_values(|d: (Seq<char>, Seq<char>)| BatchEntryView::SetNx { key: d.0, value: d.1 })
}

/// The batch that stores each value under its key unless the key is there,
/// and sets the key's expiry.
pub open spec fn setnx_expire_entries(dataset: Seq<(Seq<char>, Seq<char>, usize)>) -> Seq<
    BatchEntryView,
> {
    dataset.map_values(
        |d: (Seq<char>, Seq<char>, usize)|
            BatchEntryView::SetNxExpire { key: d.0, value: d.1, seconds: d.2 as nat },
    )
}

/// The batch that stores each field map under its key with an expiry.
pub open spec fn hmset_expire_entries(
    dataset: Seq<(Seq<char>, Seq<(Seq<char>, Seq<char>)>, usize)>,
) -> Seq<BatchEntryView> {
    dataset.map_values(
        |d: (Seq<char>, Seq<(Seq<char>, Seq<char>)>, usize)|
            BatchEntryView::HmSetExpire { key: d.0, fields: d.1, seconds: d.2 as nat },
    )
}

/// An accessor of the key-value store.
#[derive(Debug)]
pub struct RedisAccessorAsync<'a, C> {
    host: &'a str,
    port: u16,
    user: &'a str,
    passwd: &'a str,
    db: i64,
    async_conn: ConnectionState<C>,
}

/// The mathematical value of a [`RedisAccessorAsync`].
pub struct RedisAccessorAsyncView<C> {
    pub host: Seq<char>,
    pub port: u16,
    pub user: Seq<char>,
    pub passwd: Seq<char>,
    pub db: i64,
    pub conn: ConnectionView<C>,
}

impl<'a, C> View for RedisAccessorAsync<'a, C> {
    type V = RedisAccessorAsyncView<C>;

    closed spec fn view(&self) -> RedisAccessorAsyncView<C> {
        RedisAccessorAsyncView {
            host: self.host@,
            port: self.port,
            user: self.user@,
            passwd: self.passwd@,
            db: self.db,
            conn: self.async_conn@,
        }
    }
}

impl<'a, C> RedisAccessor for RedisAccessorAsync<'a, C> {
}

impl<'a, C> RedisAccessorAsync<'a, C> {
    /// An accessor for the store at `localhost:6380`, namespace 0, without
    /// credentials and without a connection.
    pub fn new() -> (accessor: Self)
        ensures
            accessor@ == (RedisAccessorAsyncView::<C> {
                host: "localhost"@,
                port: 6380,
                user: ""@,
                passwd: ""@,
                db: 0,
                conn: ConnectionView::Disconnected,
            }),
    {
        Self {
            host: "localhost",
            port: 6380,
            user: "",
            passwd: "",
            db: 0,
            async_conn: ConnectionState::Disconnected,
        }
    }

    /// The same accessor for another host.
    pub fn host(self, host: &'a str) -> (accessor: Self)
        ensures
            accessor@ == (RedisAccessorAsyncView { host: host@, ..self@ }),
    {
        Self { host, ..self }
    }

    /// The same accessor for another port.
    pub fn port(self, port: u16) -> (accessor: Self)
        ensures
            accessor@ == (RedisAccessorAsyncView { port, ..self@ }),
    {
        Self { port, ..self }
    }

    /// The same accessor for another user.
    pub fn user(self, user: &'a str) -> (accessor: Self)
        ensures
            accessor@ == (RedisAccessorAsyncView { user: user@, ..self@ }),
    {
        Self { user, ..self }
    }

    /// The same accessor with another password.
    pub fn passwd(self, passwd: &'a str) -> (accessor: Self)
        ensures
            accessor@ == (RedisAccessorAsyncView { passwd: passwd@, ..self@ }),
    {
        Self { passwd, ..self }
    }

    /// The same accessor for another namespace.
    pub fn db(self, db: i64) -> (accessor: Self)
        ensures
            accessor@ == (RedisAccessorAsyncView { db, ..self@ }),
    {
        Self { db, ..self }
    }

    /// What a client needs in order to connect: the user and the password
    /// only where they are not empty.
    pub fn connection_settings(&self) -> (settings: RedisConnectionSettings)
        ensures
            settings.host@ == self@.host,
            settings.port == self@.port,
            settings.db == self@.db,
            optional_text(settings.username) == unless_empty(self@.user),
            optional_text(settings.passwd) == unless_empty(self@.passwd),
    {
        let username = if self.user.is_empty() {
            None
        } else {
            Some(String::from_str(self.user))
        };
        let passwd = if self.passwd.is_empty() {
            None
        } else {
            Some(String::from_str(self.passwd))
        };
        RedisConnectionSettings {
            host: String::from_str(self.host),
            port: self.port,
            db: self.db,
            username,
            passwd,
        }
    }

    /// Whether a connection has yet to be opened.
    pub fn needs_connection(&self) -> (needed: bool)
        ensures
            needed == !self@.conn.is_open(),
    {
        !self.async_conn.is_open()
    }

    /// Takes note of what came of opening a connection. An accessor that is
    /// connected stays as it is. Settings that the client refused are an
    /// error. A connection that was tried and failed is none: the accessor
    /// stays without one and remembers the cause.
    pub fn open_connection(&mut self, opening: Opening<C>) -> (result: Result<
        (),
        RedisAccessorError,
    >)
        ensures
            ({
                let before = old(self)@;
                let after = final(self)@;
                if before.conn.is_open() {
                    result is Ok && after == before
                } else {
                    match opening {
                        Opening::Refused => result == Err::<(), RedisAccessorError>(
                            RedisAccessorError { err_type: RedisAccessorErrorType::OpenConnError },
                        ) && after == before,
                        Opening::Tried(attempt) => result is Ok && after == (RedisAccessorAsyncView {
                            conn: before.conn.settle(attempt_view(attempt)),
                            ..before
                        }),
                    }
                }
            }),
    {
        if self.async_conn.is_open() {
            return Ok(());
        }
        match opening {
            Opening::Refused => Err(
                RedisAccessorError { err_type: RedisAccessorErrorType::OpenConnError },
            ),
            Opening::Tried(attempt) => {
                let mut state = ConnectionState::Disconnected;
                std::mem::swap(&mut self.async_conn, &mut state);
                self.async_conn = state.settle(attempt);
                Ok(())
            },
        }
    }

    /// The state of the connection.
    pub fn connection(&self) -> (state: &ConnectionState<C>)
        ensures
            state@ == self@.conn,
    {
        &self.async_conn
    }

    /// The handle of the open connection, to send on it.
    pub fn connection_mut(&mut self) -> (handle: Option<&mut C>)
        ensures
            match handle {
                Some(h) => old(self)@.conn == ConnectionView::Connected(*h) && final(self)@ == (
                RedisAccessorAsyncView { conn: ConnectionView::Connected(*final(h)), ..old(self)@ }),
                None => !old(self)@.conn.is_open() && final(self)@ == old(self)@,
            },
    {
        self.async_conn.handle_mut()
    }

    /// Refuses an operation on a connection that is not open.
    pub fn check_conn_open(&self) -> (result: Result<(), RedisAccessorError>)
        ensures
            result == if self@.conn.is_open() {
                Ok::<(), RedisAccessorError>(())
            } else {
                Err::<(), RedisAccessorError>(conn_not_open())
            },
    {
        if self.async_conn.is_open() {
            Ok(())
        } else {
            Err(RedisAccessorError { err_type: RedisAccessorErrorType::ConnNotOpen })
        }
    }

    /// The command that reads `key`.
    pub fn get(&self, key: &str) -> (result: Result<Command, RedisAccessorError>)
        ensures
            match result {
                Ok(command) => self@.conn.is_open() && command@ == (CommandView::Get { key: key@ }),
                Err(e) => !self@.conn.is_open() && e == conn_not_open(),
            },
    {
        self.check_conn_open()?;
        Ok(Command::Get { key: String::from_str(key) })
    }

    /// What a read comes to: the value that was fetched, or
    /// `GetContentError` where none was.
    pub fn get_result<T>(fetched: Option<T>) -> (result: Result<T, RedisAccessorError>)
        ensures
            result == match fetched {
                Some(value) => Ok::<T, RedisAccessorError>(value),
                None => Err::<T, RedisAccessorError>(
                    RedisAccessorError { err_type: RedisAccessorErrorType::GetContentError },
                ),
            },
    {
        match fetched {
            Some(value) => Ok(value),
            None => Err(RedisAccessorError { err_type: RedisAccessorErrorType::GetContentError }),
        }
    }

    /// The command that stores `val` under `key`, to expire after `ex`
    /// seconds.
    pub fn setex(&self, key: &str, val: &str, ex: usize) -> (result: Result<
        Command,
        RedisAccessorError,
    >)
        ensures
            match result {
                Ok(command) => self@.conn.is_open() && command@ == (CommandView::SetEx {
                    key: key@,
                    seconds: ex as nat,
                    value: val@,
                }),
                Err(e) => !self@.conn.is_open() && e == conn_not_open(),
            },
    {
        self.check_conn_open()?;
        Ok(Command::SetEx { key: String::from_str(key), seconds: ex, value: String::from_str(val) })
    }

    /// What a write, or a pipeline of writes, comes to. The server's answers
    /// to the commands of a pipeline are not told apart: the pipeline has
    /// succeeded as a whole or failed as a whole.
    pub fn pipe_execute(succeeded: bool) -> (result: Result<(), RedisAccessorError>)
        ensures
            result == if succeeded {
                Ok::<(), RedisAccessorError>(())
            } else {
                Err::<(), RedisAccessorError>(
                    RedisAccessorError { err_type: RedisAccessorErrorType::SetContentError },
                )
            },
    {
        if succeeded {
            Ok(())
        } else {
            Err(RedisAccessorError { err_type: RedisAccessorErrorType::SetContentError })
        }
    }

    /// The dispatch that stores each field map of `dataset` under its key
    /// and sets the key's expiry: two commands per entry, `HMSET` then
    /// `EXPIRE`.
    pub fn multi_hmset_expire(&self, dataset: Vec<(String, Vec<(String, String)>, usize)>) -> (result:
        Result<Dispatch, RedisAccessorError>)
        ensures
            match result {
                Ok(dispatch) => self@.conn.is_open() && dispatch_view(dispatch) == batch_dispatch(
                    hmset_expire_entries(dataset.deep_view()),
                ),
                Err(e) => !self@.conn.is_open() && e == conn_not_open(),
            },
    {
        self.check_conn_open()?;
        let mut entries: Vec<BatchEntry> = Vec::new();
        let mut i: usize = 0;
        while i < dataset.len()
            invariant
                i <= dataset.len(),
                entries.len() == i,
                forall|k: int|
                    0 <= k < i ==> (#[trigger] entries@[k])@ == hmset_expire_entries(dataset.deep_view())[k],
            decreases dataset.len() - i,
        {
            let entry = BatchEntry::HmSetExpire {
                key: dataset[i].0.clone(),
                fields: clone_fields(&dataset[i].1),
                seconds: dataset[i].2,
            };
            entries.push(entry);
            i += 1;
        }
        assert(entry_views(entries@) =~= hmset_expire_entries(dataset.deep_view()));
        Ok(CommandPipeline::build(&entries).dispatch())
    }

    /// The dispatch that stores each value of `dataset` under its key with
    /// an expiry: one `SETEX` per entry.
    pub fn multi_setex(&self, dataset: Vec<(String, String, usize)>) -> (result: Result<
        Dispatch,
        RedisAccessorError,
    >)
        ensures
            match result {
                Ok(dispatch) => self@.conn.is_open() && dispatch_view(dispatch) == batch_dispatch(
                    setex_entries(dataset.deep_view()),
                ),
                Err(e) => !self@.conn.is_open() && e == conn_not_open(),
            },
    {
        self.check_conn_open()?;
        let mut entries: Vec<BatchEntry> = Vec::new();
        let mut i: usize = 0;
        while i < dataset.len()
            invariant
                i <= dataset.len(),
                entries.len() == i,
                forall|k: int|
                    0 <= k < i ==> (#[trigger] entries@[k])@ == setex_entries(dataset.deep_view())[k],
            decreases dataset.len() - i,
        {
            let entry = BatchEntry::SetEx {
                key: dataset[i].0.clone(),
                value: dataset[i].1.clone(),
                seconds: dataset[i].2,
            };
            entries.push(entry);
            i += 1;
        }
        assert(entry_views(entries@) =~= setex_entries(dataset.deep_view()));
        Ok(CommandPipeline::build(&entries).dispatch())
    }

    /// The dispatch that stores each value of `dataset` under its key unless
    /// the key is there already: one `SETNX` per entry.
    pub fn multi_setnx(&self, dataset: Vec<(String, String)>) -> (result: Result<
        Dispatch,
        RedisAccessorError,
    >)
        ensures
            match result {
                Ok(dispatch) => self@.conn.is_open() && dispatch_view(dispatch) == batch_dispatch(
                    setnx_entries(dataset.deep_view()),
                ),
                Err(e) => !self@.conn.is_open() && e == conn_not_open(),
            },
    {
        self.check_conn_open()?;
        let mut entries: Vec<BatchEntry> = Vec::new();
        let mut i: usize = 0;
        while i < dataset.len()
            invariant
                i <= dataset.len(),
                entries.len() == i,
                forall|k: int|
                    0 <= k < i ==> (#[trigger] entries@[k])@ == setnx_entries(dataset.deep_view())[k],
            decreases dataset.len() - i,
        {
            let entry = BatchEntry::SetNx {
                key: dataset[i].0.clone(),
                value: dataset[i].1.clone(),
            };
            entries.push(entry);
            i += 1;
        }
        assert(entry_views(entries@) =~= setnx_entries(dataset.deep_view()));
        Ok(CommandPipeline::build(&entries).dispatch())
    }

    /// The dispatch that stores each value of `dataset` under its key unless
    /// the key is there already, and sets the key's expiry: two commands per
    /// entry, `SETNX` then `EXPIRE`.
    pub fn multi_setnx_expire(&self, dataset: Vec<(String, String, usize)>) -> (result: Result<
        Dispatch,
        RedisAccessorError,
    >)
        ensures
            match result {
                Ok(dispatch) => self@.conn.is_open() && dispatch_view(dispatch) == batch_dispatch(
                    setnx_expire_entries(dataset.deep_view()),
                ),
                Err(e) => !self@.conn.is_open() && e == conn_not_open(),
            },
    {
        self.check_conn_open()?;
        let mut entries: Vec<BatchEntry> = Vec::new();
        let mut i: usize = 0;
        while i < dataset.len()
            invariant
                i <= dataset.len(),
                entries.len() == i,
                forall|k: int|
                    0 <= k < i ==> (#[trigger] entries@[k])@ == setnx_expire_entries(dataset.deep_view())[k],
            decreases dataset.len() - i,
        {
            let entry = BatchEntry::SetNxExpire {
                key: dataset[i].0.clone(),
                value: dataset[i].1.clone(),
                seconds: dataset[i].2,
            };
            entries.push(entry);
            i += 1;
        }
        assert(entry_views(entries@) =~= setnx_expire_entries(dataset.deep_view()));
        Ok(CommandPipeline::build(&entries).dispatch())
    }
}

} // verus!
