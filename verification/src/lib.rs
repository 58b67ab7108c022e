//! Client-side building blocks for three kinds of backend: an HTTP endpoint,
//! a relational database and a key-value store.
//!
//! The transports themselves live outside this crate. What is here is the
//! logic that sits above them: a bounded fan-out scheduler, a builder for
//! pipelined write batches, and a guard that re-authenticates a connection
//! once when the server asks for it.

pub mod redisaccessor;
pub mod decimal;
pub mod command;
pub mod reply;
pub mod reauth;
pub mod fanout;
pub mod pipeline;
pub mod wire;
pub mod httpaccessor;
pub mod connection;
pub mod redisaccessor_async;
pub mod redisaccessor_actix;
pub mod mysqlaccessor;
pub mod mysqlaccessor_async;
pub mod mysqlaccessor_pool_async;
