//! The life of a connection, as an accessor sees it.
//!
//! An accessor never makes or tears down a connection. Whoever holds the
//! transport tries to connect and reports how that went; the accessor keeps
//! the handle, lends it out, and remembers why an attempt failed.

use vstd::prelude::*;

verus! {

/// How an attempt to connect went: a handle, or the transport's description
/// of what went wrong.
pub type Attempt<H> = Result<H, String>;

/// Whether an accessor has a connection.
#[derive(Debug, Clone, PartialEq, Eq)]
pub enum ConnectionState<H> {
    /// No connection has been opened.
    Disconnected,
    /// The last attempt to connect failed, for this reason.
    Failed(String),
    /// The connection is open; this is its handle.
    Connected(H),
}

/// The mathematical value of a [`ConnectionState`].
pub enum ConnectionView<H> {
    Disconnected,
    Failed(Seq<char>),
    Connected(H),
}

impl<H> View for ConnectionState<H> {
    type V = ConnectionView<H>;

    open spec fn view(&self) -> ConnectionView<H> {
        match self {
            ConnectionState::Disconnected => ConnectionView::Disconnected,
            ConnectionState::Failed(cause) => ConnectionView::Failed(cause@),
            ConnectionState::Connected(handle) => ConnectionView::Connected(*handle),
        }
    }
}

/// The value of an attempt.
pub open spec fn attempt_view<H>(attempt: Attempt<H>) -> Result<H, Seq<char>> {
    match attempt {
        Ok(handle) => Ok(handle),
        Err(cause) => Err(cause@),
    }
}

impl<H> ConnectionView<H> {
    /// Whether the connection is open.
    pub open spec fn is_open(self) -> bool {
        self is Connected
    }

    /// The state after an attempt to connect has been reported. An open
    /// connection stays as it is: the attempt is of no account.
    pub open spec fn settle(self, attempt: Result<H, Seq<char>>) -> Self {
        if self is Connected {
            self
        } else {
            match attempt {
                Ok(handle) => ConnectionView::Connected(handle),
                Err(cause) => ConnectionView::Failed(cause),
            }
        }
    }
}

impl<H> ConnectionState<H> {
    /// Whether the connection is open.
    pub fn is_open(&self) -> (open: bool)
        ensures
            open == self@.is_open(),
    {
        match self {
            ConnectionState::Connected(_) => true,
            _ => false,
        }
    }

    /// The handle of the open connection.
    pub fn handle(&self) -> (handle: Option<&H>)
        ensures
            match handle {
                Some(h) => self@ == ConnectionView::Connected(*h),
                None => !self@.is_open(),
            },
    {
        match self {
            ConnectionState::Connected(handle) => Some(handle),
            _ => None,
        }
    }

    /// The handle of the open connection, to use it.
    pub fn handle_mut(&mut self) -> (handle: Option<&mut H>)
        ensures
            match handle {
                Some(h) => old(self)@ == ConnectionView::Connected(*h) && final(self)@
                    == ConnectionView::Connected(*final(h)),
                None => !old(self)@.is_open() && final(self)@ == old(self)@,
            },
    {
        match self {
            ConnectionState::Connected(handle) => Some(handle),
            _ => None,
        }
    }

    /// Why the last attempt to connect failed, if it did.
    pub fn failure(&self) -> (cause: Option<&str>)
        ensures
            match cause {
                Some(text) => self@ == ConnectionView::<H>::Failed(text@),
                None => !(self@ is Failed),
            },
    {
        match self {
            ConnectionState::Failed(cause) => Some(cause.as_str()),
            _ => None,
        }
    }

    /// Takes note of an attempt to connect.
    pub fn settle(self, attempt: Attempt<H>) -> (state: Self)
        ensures
            state@ == self@.settle(attempt_view(attempt)),
    {
        match self {
            ConnectionState::Connected(handle) => ConnectionState::Connected(handle),
            _ => match attempt {
                Ok(handle) => ConnectionState::Connected(handle),
                Err(cause) => ConnectionState::Failed(cause),
            },
        }
    }
}

} // verus!
