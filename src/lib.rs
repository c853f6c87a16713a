//! Uniform dispatch of a request against a client.
//!
//! A request type says how it runs against a client; every client type then
//! gets `commit`, which hands itself to the request. Either side may be passed
//! by value, by shared reference or by exclusive reference: each such binding
//! is a type of its own, and conformances for them do not collide.
//!
//! `impl_blocking` holds the synchronous pair, `impl_async` the pair whose
//! execution yields a deferred computation for an outside driver to complete.

pub mod impl_async;
pub mod impl_blocking;
