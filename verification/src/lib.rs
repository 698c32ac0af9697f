//! An in-memory key-value store from text to text.
//!
//! - [`store`] holds the store itself, [`Zap`], and what its operations
//!   guarantee.
//! - [`table`] is the hash table underneath it, and the only part that is
//!   trusted rather than proved.
//! - [`state`] holds the worker that owns one store on behalf of many
//!   callers, and the messages it answers.
//! - [`history`] says what a store holds after any sequence of changes.
//! - [`http`] decides the status and body with which the HTTP front end
//!   answers each request.

pub mod table;
pub mod store;
pub mod state;
pub mod history;
pub mod http;

pub use crate::store::Zap;
