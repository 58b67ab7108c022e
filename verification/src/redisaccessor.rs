//! Error types shared by the key-value store accessors.

use vstd::prelude::*;

verus! {

/// What went wrong in a key-value store operation.
#[derive(Debug, Clone, Copy, PartialEq, Eq, Structural)]
pub enum RedisAccessorErrorType {
    /// An operation was attempted without an open connection.
    ConnNotOpen,
    /// The connection could not be opened, or a command sent while
    /// preparing it did not get through.
    OpenConnError,
    /// The server kept asking for authentication, or refused it.
    AuthError,
    /// A read did not get through, or came back in an unusable state.
    GetContentError,
    /// The key that was read does not exist.
    GetKeyNotExist,
    /// A write, or a batch of writes, failed.
    SetContentError,
}

/// An error of a key-value store accessor.
#[derive(Debug, Clone, Copy, PartialEq, Eq, Structural)]
pub struct RedisAccessorError {
    pub err_type: RedisAccessorErrorType,
}

/// The error of an operation on a connection that is not open.
pub open spec fn conn_not_open() -> RedisAccessorError {
    RedisAccessorError { err_type: RedisAccessorErrorType::ConnNotOpen }
}

/// Marker for the key-value store accessors.
pub trait RedisAccessor {
}

} // verus!
